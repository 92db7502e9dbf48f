//! The ordered severity scale and its fixed-width header tag.

use vstd::prelude::*;

verus! {

/// Log severity, totally ordered from least to most severe.
#[derive(Clone, Copy, Debug, PartialEq, Eq, Structural)]
pub enum Severity {
    Trace,
    Debug,
    Info,
    Warn,
    Error,
    Critical,
}

impl Severity {
    /// Position in the severity order, least severe first.
    pub open spec fn rank(self) -> int {
        match self {
            Severity::Trace => 0,
            Severity::Debug => 1,
            Severity::Info => 2,
            Severity::Warn => 3,
            Severity::Error => 4,
            Severity::Critical => 5,
        }
    }

    /// The eight-byte header tag: the severity name padded on the right
    /// with spaces to a fixed column width.
    pub open spec fn tag(self) -> Seq<u8> {
        match self {
            Severity::Trace => seq![  // "TRACE   "
                84, 82, 65, 67, 69, 32, 32, 32],
            Severity::Debug => seq![  // "DEBUG   "
                68, 69, 66, 85, 71, 32, 32, 32],
            Severity::Info => seq![  // "INFO    "
                73, 78, 70, 79, 32, 32, 32, 32],
            Severity::Warn => seq![  // "WARN    "
                87, 65, 82, 78, 32, 32, 32, 32],
            Severity::Error => seq![  // "ERROR   "
                69, 82, 82, 79, 82, 32, 32, 32],
            Severity::Critical => seq![  // "CRITICAL"
                67, 82, 73, 84, 73, 67, 65, 76],
        }
    }

    /// Executable rank, equal to the specification-level rank.
    pub fn rank_index(&self) -> (r: u8)
        ensures
            r as int == self.rank(),
    {
        match self {
            Severity::Trace => 0,
            Severity::Debug => 1,
            Severity::Info => 2,
            Severity::Warn => 3,
            Severity::Error => 4,
            Severity::Critical => 5,
        }
    }

    /// Whether `self` is at least as severe as `other`.
    pub fn at_least(&self, other: &Severity) -> (r: bool)
        ensures
            r == (self.rank() >= other.rank()),
    {
        self.rank_index() >= other.rank_index()
    }

    /// Appends the eight-byte header tag to `out`.
    pub fn push_tag(&self, out: &mut Vec<u8>)
        ensures
            final(out)@ == old(out)@ + self.tag(),
    {
        match self {
            Severity::Trace => {
                out.push(84);
                out.push(82);
                out.push(65);
                out.push(67);
                out.push(69);
                out.push(32);
                out.push(32);
                out.push(32);
            },
            Severity::Debug => {
                out.push(68);
                out.push(69);
                out.push(66);
                out.push(85);
                out.push(71);
                out.push(32);
                out.push(32);
                out.push(32);
            },
            Severity::Info => {
                out.push(73);
                out.push(78);
                out.push(70);
                out.push(79);
                out.push(32);
                out.push(32);
                out.push(32);
                out.push(32);
            },
            Severity::Warn => {
                out.push(87);
                out.push(65);
                out.push(82);
                out.push(78);
                out.push(32);
                out.push(32);
                out.push(32);
                out.push(32);
            },
            Severity::Error => {
                out.push(69);
                out.push(82);
                out.push(82);
                out.push(79);
                out.push(82);
                out.push(32);
                out.push(32);
                out.push(32);
            },
            Severity::Critical => {
                out.push(67);
                out.push(82);
                out.push(73);
                out.push(84);
                out.push(73);
                out.push(67);
                out.push(65);
                out.push(76);
            },
        }
        assert(out@ =~= old(out)@ + self.tag());
    }
}

/// Every severity tag is exactly eight bytes wide.
pub proof fn lemma_tag_width(s: Severity)
    ensures
        s.tag().len() == 8,
{
}

} // verus!
