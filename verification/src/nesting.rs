//! Nested YAML flow mappings, and a depth limit that is enforced before a
//! recursive parser sees the text.

use vstd::prelude::*;
use vstd::string::StringExecFns;
use crate::parser::{load_yaml, yaml_loads};

verus! {

/// The deepest nesting that is ever handed to the parser, whatever limit
/// the caller sets.
pub const MAX_NESTING_DEPTH: usize = 128;

/// A nesting depth above the limit in force. No text was built or parsed.
#[derive(Clone, Copy, Debug, PartialEq, Eq, Structural)]
pub struct DepthLimitExceeded {
    pub depth: usize,
    pub limit: usize,
}

/// The text that opens one level: `{a: `.
pub open spec fn level_open() -> Seq<char> {
    seq!['{', 'a', ':', ' ']
}

/// The text that closes one level: `}`.
pub open spec fn level_close() -> Seq<char> {
    seq!['}']
}

/// `unit` written `count` times in a row.
pub open spec fn repeated(unit: Seq<char>, count: nat) -> Seq<char>
    decreases count,
{
    if count == 0 {
        Seq::<char>::empty()
    } else {
        repeated(unit, (count - 1) as nat) + unit
    }
}

/// A flow mapping nested `depth` levels deep: `depth` openings, then
/// `depth` closings.
pub open spec fn nested_yaml(depth: nat) -> Seq<char> {
    repeated(level_open(), depth) + repeated(level_close(), depth)
}

/// The limit in force for a caller's limit: the caller's, or
/// `MAX_NESTING_DEPTH` where that is lower.
pub open spec fn limit_in_force(limit: usize) -> usize {
    if limit <= MAX_NESTING_DEPTH {
        limit
    } else {
        MAX_NESTING_DEPTH
    }
}

/// `unit` written `count` times has `count` times its length.
pub proof fn lemma_repeated_len(unit: Seq<char>, count: nat)
    ensures
        repeated(unit, count).len() == count * unit.len(),
    decreases count,
{
    if count == 0 {
        assert(0 * unit.len() == 0);
    } else {
        let fewer = (count - 1) as nat;
        lemma_repeated_len(unit, fewer);
        assert(fewer * unit.len() + unit.len() == count * unit.len()) by (nonlinear_arith)
            requires
                fewer + 1 == count,
        ;
    }
}

/// Writes `unit` onto the end of `text`, `count` times.
fn append_repeated(text: &mut String, unit: &str, count: usize)
    ensures
        final(text)@ == old(text)@ + repeated(unit@, count as nat),
{
    let mut written: usize = 0;
    while written < count
        invariant
            written <= count,
            text@ == old(text)@ + repeated(unit@, written as nat),
        decreases count - written,
    {
        text.append(unit);
        written = written + 1;
        assert(text@ =~= old(text)@ + repeated(unit@, written as nat));
    }
}

/// Builds the YAML text of a flow mapping nested `depth` levels deep,
/// five bytes to the level.
pub fn make_nested_yaml(depth: usize) -> (text: String)
    requires
        5 * depth <= isize::MAX,
    ensures
        text@ == nested_yaml(depth as nat),
        text@.len() == 5 * depth,
{
    let mut text = String::new();
    proof {
        reveal_strlit("{a: ");
        reveal_strlit("}");
        assert("{a: "@ =~= level_open());
        assert("}"@ =~= level_close());
        lemma_repeated_len(level_open(), depth as nat);
        lemma_repeated_len(level_close(), depth as nat);
    }
    append_repeated(&mut text, "{a: ", depth);
    append_repeated(&mut text, "}", depth);
    assert(text@ =~= nested_yaml(depth as nat));
    text
}

/// Parses a flow mapping nested `depth` levels deep, unless that is deeper
/// than the limit in force: then it fails at once, before any text is
/// built, and the parser is never entered. Within the limit the result is
/// whether the parser accepted the text.
pub fn load_nested(depth: usize, limit: usize) -> (outcome: Result<bool, DepthLimitExceeded>)
    ensures
        outcome == if depth > limit_in_force(limit) {
            Err::<bool, DepthLimitExceeded>(
                DepthLimitExceeded { depth, limit: limit_in_force(limit) },
            )
        } else {
            Ok::<bool, DepthLimitExceeded>(yaml_loads(nested_yaml(depth as nat)))
        },
{
    let in_force = if limit <= MAX_NESTING_DEPTH {
        limit
    } else {
        MAX_NESTING_DEPTH
    };
    if depth > in_force {
        return Err(DepthLimitExceeded { depth, limit: in_force });
    }
    let text = make_nested_yaml(depth);
    Ok(load_yaml(text.as_str()))
}

} // verus!
