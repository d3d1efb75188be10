use vstd::prelude::*;

verus! {

/// How the output size of an upscaled image is requested.
///
/// The two families are mutually exclusive: a factor, or a set of
/// resolution targets and minimums, each of which is optional.
#[derive(Debug, Clone, Copy, PartialEq, Eq, Structural)]
pub enum Sizing {
    /// Nothing requested: the worker picks its own default.
    Unset,
    /// Upscale by at least this factor.
    Scale(u8),
    /// Upscale to reach the targets ("at least" one of them) and the minimums
    /// (all of them).
    Resolution {
        target_width: Option<u32>,
        target_height: Option<u32>,
        min_width: Option<u32>,
        min_height: Option<u32>,
    },
}

impl Sizing {
    /// The resolution fields in effect: those of a `Resolution`, and none
    /// otherwise.
    pub open spec fn resolution_fields(self) -> (Option<u32>, Option<u32>, Option<u32>, Option<u32>) {
        match self {
            Sizing::Resolution { target_width, target_height, min_width, min_height } => (
                target_width,
                target_height,
                min_width,
                min_height,
            ),
            _ => (None, None, None, None),
        }
    }

    /// The scale factor in effect, if the scale family is active.
    pub open spec fn scale_factor(self) -> Option<u8> {
        match self {
            Sizing::Scale(s) => Some(s),
            _ => None,
        }
    }

    /// True when no resolution field is set.
    pub open spec fn has_no_resolution(self) -> bool {
        self.resolution_fields() == (None::<u32>, None::<u32>, None::<u32>, None::<u32>)
    }

    /// The resolution family with its four fields as given.
    pub open spec fn resolution_of(
        fields: (Option<u32>, Option<u32>, Option<u32>, Option<u32>),
    ) -> Sizing {
        Sizing::Resolution {
            target_width: fields.0,
            target_height: fields.1,
            min_width: fields.2,
            min_height: fields.3,
        }
    }

    /// This sizing with the target height set, the other resolution fields
    /// kept and the scale family cleared.
    pub open spec fn with_target_height(self, height: u32) -> Sizing {
        let f = self.resolution_fields();
        Sizing::resolution_of((f.0, Some(height), f.2, f.3))
    }

    /// This sizing with the target width set, the other resolution fields
    /// kept and the scale family cleared.
    pub open spec fn with_target_width(self, width: u32) -> Sizing {
        let f = self.resolution_fields();
        Sizing::resolution_of((Some(width), f.1, f.2, f.3))
    }

    /// This sizing with the minimum height set, the other resolution fields
    /// kept and the scale family cleared.
    pub open spec fn with_min_height(self, height: u32) -> Sizing {
        let f = self.resolution_fields();
        Sizing::resolution_of((f.0, f.1, f.2, Some(height)))
    }

    /// This sizing with the minimum width set, the other resolution fields
    /// kept and the scale family cleared.
    pub open spec fn with_min_width(self, width: u32) -> Sizing {
        let f = self.resolution_fields();
        Sizing::resolution_of((f.0, f.1, Some(width), f.3))
    }

    /// The resolution fields in effect (target width, target height, minimum
    /// width, minimum height), all absent unless the resolution family is set.
    pub fn resolution_part(&self) -> (r: (Option<u32>, Option<u32>, Option<u32>, Option<u32>))
        ensures
            r == self.resolution_fields(),
    {
        match self {
            Sizing::Resolution { target_width, target_height, min_width, min_height } => (
                *target_width,
                *target_height,
                *min_width,
                *min_height,
            ),
            _ => (None, None, None, None),
        }
    }
}

/// The two sizing families never hold at once: while a scale factor is in
/// effect no resolution field is, and while any resolution field is set no
/// scale factor is.
pub proof fn lemma_families_exclusive(s: Sizing)
    ensures
        s.scale_factor() is Some ==> s.has_no_resolution(),
        !s.has_no_resolution() ==> s.scale_factor() is None,
{
}

} // verus!
