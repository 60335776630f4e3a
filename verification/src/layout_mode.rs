use vstd::prelude::*;
use vstd::string::StrSliceExecFns;
use vstd::string::StringExecFns;

verus! {

/// Layout mode for a workspace.
#[derive(Clone, Copy, Debug, PartialEq, Eq, Structural)]
pub enum LayoutMode {
    /// Standard tiling layout where windows share the available screen space.
    Tiling,
    /// Infinite horizontal scrolling layout. Windows are placed side-by-side
    /// on a virtual canvas that extends beyond the screen width, and the
    /// viewport scrolls to keep the focused window visible.
    Scrolling,
}

impl Default for LayoutMode {
    fn default() -> (mode: LayoutMode)
        ensures
            mode == LayoutMode::Tiling,
    {
        LayoutMode::Tiling
    }
}

/// The layout mode that a configuration name stands for: `tiling` or
/// `scrolling`, in lower case.
pub open spec fn spec_layout_mode_from_name(name: Seq<char>) -> Option<LayoutMode> {
    if name == seq!['t', 'i', 'l', 'i', 'n', 'g'] {
        Some(LayoutMode::Tiling)
    } else if name == seq!['s', 'c', 'r', 'o', 'l', 'l', 'i', 'n', 'g'] {
        Some(LayoutMode::Scrolling)
    } else {
        None
    }
}

/// The error of parsing a string that names no layout mode.
#[derive(Clone, Debug, PartialEq, Eq)]
pub struct LayoutModeParseError {
    /// The string that was parsed.
    pub unparsed: String,
}

impl LayoutModeParseError {
    /// The error's message: `Not a valid layout mode: ` followed by the
    /// string that was parsed.
    pub fn message(&self) -> (msg: String)
        ensures
            msg@ == "Not a valid layout mode: "@ + self.unparsed@,
    {
        let mut msg = String::from_str("Not a valid layout mode: ");
        msg.append(self.unparsed.as_str());
        msg
    }
}

/// Whether two string slices hold the same characters.
fn same_chars(a: &str, b: &str) -> (same: bool)
    ensures
        same == (a@ == b@),
{
    let n = a.unicode_len();
    if n != b.unicode_len() {
        return false;
    }
    let mut i: usize = 0;
    while i < n
        invariant
            n == a@.len(),
            n == b@.len(),
            i <= n,
            forall|k: int| 0 <= k < i ==> a@[k] == b@[k],
        decreases n - i,
    {
        if a.get_char(i) != b.get_char(i) {
            return false;
        }
        i = i + 1;
    }
    proof {
        assert(a@ =~= b@);
    }
    true
}

impl LayoutMode {
    /// Parses a layout mode from its configuration name (`tiling` or
    /// `scrolling`); any other string is an error that holds it.
    pub fn from_name(unparsed: &str) -> (parsed: Result<LayoutMode, LayoutModeParseError>)
        ensures
            match spec_layout_mode_from_name(unparsed@) {
                Some(mode) => parsed == Ok::<LayoutMode, LayoutModeParseError>(mode),
                None => parsed matches Err(e) && e.unparsed@ == unparsed@,
            },
    {
        let tiling = "tiling";
        let scrolling = "scrolling";
        proof {
            reveal_strlit("tiling");
            reveal_strlit("scrolling");
            assert(tiling@ =~= seq!['t', 'i', 'l', 'i', 'n', 'g']);
            assert(scrolling@ =~= seq!['s', 'c', 'r', 'o', 'l', 'l', 'i', 'n', 'g']);
        }
        if same_chars(unparsed, tiling) {
            Ok(LayoutMode::Tiling)
        } else if same_chars(unparsed, scrolling) {
            Ok(LayoutMode::Scrolling)
        } else {
            Err(LayoutModeParseError { unparsed: String::from_str(unparsed) })
        }
    }
}

impl std::str::FromStr for LayoutMode {
    type Err = LayoutModeParseError;

    fn from_str(unparsed: &str) -> (parsed: Result<LayoutMode, LayoutModeParseError>)
        ensures
            match spec_layout_mode_from_name(unparsed@) {
                Some(mode) => parsed == Ok::<LayoutMode, LayoutModeParseError>(mode),
                None => parsed matches Err(e) && e.unparsed@ == unparsed@,
            },
    {
        LayoutMode::from_name(unparsed)
    }
}

} // verus!
