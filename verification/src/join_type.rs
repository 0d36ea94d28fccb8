//! The join-type algebra: join shapes, their textual form, and the
//! structural operations the optimizer performs on them.

use vstd::prelude::*;
use vstd::string::StringExecFns;
use vstd::utf8::is_ascii_chars;

verus! {

/// An error produced by the join-type parser.
#[derive(Debug)]
pub enum PlanError {
    /// The given token names no known join type. Carries the full message,
    /// which quotes the upper-cased token.
    NotImplemented(String),
}

/// Which input of a join a value refers to.
#[derive(Debug, Clone, Copy, PartialEq, Eq, Structural, PartialOrd, Hash)]
pub enum JoinSide {
    /// Left side of the join
    Left,
    /// Right side of the join
    Right,
}

impl JoinSide {
    /// The opposite side: `Left <-> Right`.
    pub open spec fn spec_negate(self) -> JoinSide {
        match self {
            JoinSide::Left => JoinSide::Right,
            JoinSide::Right => JoinSide::Left,
        }
    }

    /// Inverse the join side
    pub fn negate(&self) -> (r: JoinSide)
        ensures
            r == self.spec_negate(),
    {
        match self {
            JoinSide::Left => JoinSide::Right,
            JoinSide::Right => JoinSide::Left,
        }
    }
}

/// Negation of a side is an involution: flipping twice returns the
/// original side.
pub proof fn lemma_negate_involutive(s: JoinSide)
    ensures
        s.spec_negate().spec_negate() == s,
{
}

/// Join constraint
#[derive(Debug, Clone, Copy, PartialEq, Eq, Structural, PartialOrd, Hash)]
pub enum JoinConstraint {
    /// Join ON
    On,
    /// Join USING
    Using,
}

/// Join type
#[derive(Debug, Clone, Copy, PartialEq, Eq, Structural, PartialOrd, Hash)]
pub enum JoinType {
    /// Inner join: only rows with a matching value on both sides, based on
    /// the join condition.
    Inner,
    /// One-sided outer join: every row of the preserving side, with NULLs
    /// filling the columns of the other side where no match exists.
    Outer(JoinSide),
    /// Full outer join: every row of both sides, with NULLs filling the
    /// missing columns where no match exists.
    Full,
    /// Semi join: only the rows of the preserving side that have at least
    /// one match on the other side, and only that side's columns.
    Semi(JoinSide),
    /// Anti join: only the rows of the preserving side that have no match
    /// on the other side, and only that side's columns.
    Anti(JoinSide),
    /// Left mark join: every left row, augmented with a boolean "mark"
    /// column that is true iff at least one right row matched. Used to
    /// decorrelate `EXISTS` subqueries inside disjunctive predicates.
    LeftMark,
    /// Fused group join, introduced by the rewrite: a left-outer equi-join
    /// that computes the grouping and aggregate expressions of the
    /// aggregation it consumed.
    LeftGroup,
}

impl JoinType {
    /// The join preserves unmatched rows of at least one side.
    pub open spec fn spec_is_outer(self) -> bool {
        match self {
            JoinType::Outer(_) | JoinType::Full => true,
            _ => false,
        }
    }

    /// True exactly for `Outer(Left)`, `Outer(Right)` and `Full`.
    pub fn is_outer(self) -> (r: bool)
        ensures
            r == self.spec_is_outer(),
            r == (self == JoinType::Outer(JoinSide::Left) || self == JoinType::Outer(
                JoinSide::Right,
            ) || self == JoinType::Full),
    {
        match self {
            JoinType::Outer(_) | JoinType::Full => true,
            _ => false,
        }
    }

    /// The join type that is logically equivalent after exchanging the two
    /// inputs, for the swappable join types.
    pub open spec fn spec_swap(self) -> JoinType {
        match self {
            JoinType::Inner => JoinType::Inner,
            JoinType::Full => JoinType::Full,
            JoinType::Outer(side) => JoinType::Outer(side.spec_negate()),
            JoinType::Semi(side) => JoinType::Semi(side.spec_negate()),
            JoinType::Anti(side) => JoinType::Anti(side.spec_negate()),
            _ => self,
        }
    }

    /// Whether the join type supports swapping its inputs.
    pub open spec fn spec_supports_swap(self) -> bool {
        match self {
            JoinType::Inner | JoinType::Full | JoinType::Outer(_) | JoinType::Semi(_)
            | JoinType::Anti(_) => true,
            JoinType::LeftMark | JoinType::LeftGroup => false,
        }
    }

    /// Returns the `JoinType` if the (2) inputs were swapped.
    ///
    /// The caller must have guarded with [`Self::supports_swap`].
    pub fn swap(&self) -> (r: JoinType)
        requires
            self.spec_supports_swap(),
        ensures
            r == self.spec_swap(),
    {
        match self {
            JoinType::Inner => JoinType::Inner,
            JoinType::Full => JoinType::Full,
            JoinType::Outer(side) => JoinType::Outer(side.negate()),
            JoinType::Semi(side) => JoinType::Semi(side.negate()),
            JoinType::Anti(side) => JoinType::Anti(side.negate()),
            JoinType::LeftMark | JoinType::LeftGroup => vstd::pervasive::unreached(),
        }
    }

    /// Does the join type support swapping inputs?
    pub fn supports_swap(&self) -> (r: bool)
        ensures
            r == self.spec_supports_swap(),
    {
        matches!(
            self,
            JoinType::Inner
                | JoinType::Full
                | JoinType::Outer(_)
                | JoinType::Semi(_)
                | JoinType::Anti(_)
        )
    }
}

/// Swapping is an involution on the join types that support it: swapping
/// twice returns the original join type, and the swapped type supports
/// swapping as well.
pub proof fn lemma_swap_involutive(t: JoinType)
    requires
        t.spec_supports_swap(),
    ensures
        t.spec_swap().spec_supports_swap(),
        t.spec_swap().spec_swap() == t,
{
}

/// Exactly `LeftMark` and `LeftGroup` do not support swapping; every other
/// join type does.
pub proof fn lemma_supports_swap_characterization(t: JoinType)
    ensures
        t.spec_supports_swap() <==> (t != JoinType::LeftMark && t != JoinType::LeftGroup),
{
}

/// The ASCII-uppercase image of a character: `a`-`z` map to `A`-`Z`, every
/// other character is unchanged.
pub open spec fn ascii_upper_char(c: char) -> char {
    if 'a' <= c && c <= 'z' {
        (((c as u8) - 32) as u8) as char
    } else {
        c
    }
}

/// The ASCII-uppercase image of a character sequence.
pub open spec fn upper_ascii(s: Seq<char>) -> Seq<char> {
    s.map_values(|c: char| ascii_upper_char(c))
}

/// What `str::to_uppercase` returns for a given character sequence.
pub uninterp spec fn upper_of(s: Seq<char>) -> Seq<char>;

/// Relies on `str::to_uppercase`: Unicode uppercasing without tailoring, a
/// function of the characters alone; on an ASCII string it maps `a`-`z` to
/// `A`-`Z` and leaves the other characters unchanged.
#[verifier::external_body]
fn to_upper(s: &str) -> (r: String)
    ensures
        r@ == upper_of(s@),
        is_ascii_chars(s@) ==> r@ == upper_ascii(s@),
{
    s.to_uppercase()
}

/// Whether the upper-cased string equals the given canonical token.
fn token_is(up: &String, token: &str) -> (r: bool)
    ensures
        r == (up@ == token@),
{
    up.eq(&String::from_str(token))
}

impl JoinSide {
    /// The canonical textual form of the side.
    pub open spec fn spec_display(self) -> Seq<char> {
        match self {
            JoinSide::Left => "left"@,
            JoinSide::Right => "right"@,
        }
    }

    /// The canonical textual form of the side: `left` or `right`.
    pub fn display(&self) -> (r: &'static str)
        ensures
            r@ == self.spec_display(),
    {
        match self {
            JoinSide::Left => "left",
            JoinSide::Right => "right",
        }
    }
}

impl JoinType {
    /// The canonical textual form of the join type.
    pub open spec fn spec_display(self) -> Seq<char> {
        match self {
            JoinType::Inner => "Inner"@,
            JoinType::Outer(JoinSide::Left) => "Left"@,
            JoinType::Outer(JoinSide::Right) => "Right"@,
            JoinType::Full => "Full"@,
            JoinType::Semi(JoinSide::Left) => "LeftSemi"@,
            JoinType::Semi(JoinSide::Right) => "RightSemi"@,
            JoinType::Anti(JoinSide::Left) => "LeftAnti"@,
            JoinType::Anti(JoinSide::Right) => "RightAnti"@,
            JoinType::LeftMark => "LeftMark"@,
            JoinType::LeftGroup => "LeftGroup"@,
        }
    }

    /// The canonical textual form of the join type, as used in explain
    /// plans and accepted (case-insensitively) by [`JoinType::from_str`].
    pub fn display(&self) -> (r: &'static str)
        ensures
            r@ == self.spec_display(),
    {
        match self {
            JoinType::Inner => "Inner",
            JoinType::Outer(JoinSide::Left) => "Left",
            JoinType::Outer(JoinSide::Right) => "Right",
            JoinType::Full => "Full",
            JoinType::Semi(JoinSide::Left) => "LeftSemi",
            JoinType::Semi(JoinSide::Right) => "RightSemi",
            JoinType::Anti(JoinSide::Left) => "LeftAnti",
            JoinType::Anti(JoinSide::Right) => "RightAnti",
            JoinType::LeftMark => "LeftMark",
            JoinType::LeftGroup => "LeftGroup",
        }
    }
}

/// The join type denoted by an already upper-cased token, if any.
pub open spec fn join_type_of_token(u: Seq<char>) -> Option<JoinType> {
    if u == "INNER"@ {
        Some(JoinType::Inner)
    } else if u == "LEFT"@ {
        Some(JoinType::Outer(JoinSide::Left))
    } else if u == "RIGHT"@ {
        Some(JoinType::Outer(JoinSide::Right))
    } else if u == "FULL"@ {
        Some(JoinType::Full)
    } else if u == "LEFTSEMI"@ {
        Some(JoinType::Semi(JoinSide::Left))
    } else if u == "RIGHTSEMI"@ {
        Some(JoinType::Semi(JoinSide::Right))
    } else if u == "LEFTANTI"@ {
        Some(JoinType::Anti(JoinSide::Left))
    } else if u == "RIGHTANTI"@ {
        Some(JoinType::Anti(JoinSide::Right))
    } else if u == "LEFTMARK"@ {
        Some(JoinType::LeftMark)
    } else if u == "LEFTGROUP"@ {
        Some(JoinType::LeftGroup)
    } else {
        None
    }
}

/// The message of the error reported for an unknown join-type token.
pub open spec fn not_implemented_msg(token: Seq<char>) -> Seq<char> {
    "The join type "@ + token + " does not exist or is not implemented"@
}

impl JoinType {
    /// Parse a join type from its textual form, case-insensitively: the
    /// input is upper-cased, then matched exactly against the canonical
    /// tokens. An unknown token yields a `NotImplemented` error quoting
    /// the upper-cased input.
    pub fn from_str(s: &str) -> (r: Result<JoinType, PlanError>)
        ensures
            match join_type_of_token(upper_of(s@)) {
                Some(t) => r == Ok::<JoinType, PlanError>(t),
                None => r matches Err(PlanError::NotImplemented(m)) && m@ == not_implemented_msg(
                    upper_of(s@),
                ),
            },
            is_ascii_chars(s@) ==> upper_of(s@) == upper_ascii(s@),
    {
        let up = to_upper(s);
        if token_is(&up, "INNER") {
            Ok(JoinType::Inner)
        } else if token_is(&up, "LEFT") {
            Ok(JoinType::Outer(JoinSide::Left))
        } else if token_is(&up, "RIGHT") {
            Ok(JoinType::Outer(JoinSide::Right))
        } else if token_is(&up, "FULL") {
            Ok(JoinType::Full)
        } else if token_is(&up, "LEFTSEMI") {
            Ok(JoinType::Semi(JoinSide::Left))
        } else if token_is(&up, "RIGHTSEMI") {
            Ok(JoinType::Semi(JoinSide::Right))
        } else if token_is(&up, "LEFTANTI") {
            Ok(JoinType::Anti(JoinSide::Left))
        } else if token_is(&up, "RIGHTANTI") {
            Ok(JoinType::Anti(JoinSide::Right))
        } else if token_is(&up, "LEFTMARK") {
            Ok(JoinType::LeftMark)
        } else if token_is(&up, "LEFTGROUP") {
            Ok(JoinType::LeftGroup)
        } else {
            let msg = String::from_str("The join type ").concat(up.as_str()).concat(
                " does not exist or is not implemented",
            );
            Err(PlanError::NotImplemented(msg))
        }
    }
}

/// Display then parse is the identity: the canonical form of every join
/// type is ASCII, and its ASCII-uppercase image is the token that parses
/// back to the same join type.
pub proof fn lemma_parse_display_round_trip(t: JoinType)
    ensures
        is_ascii_chars(t.spec_display()),
        join_type_of_token(upper_ascii(t.spec_display())) == Some(t),
{
    reveal_strlit("Inner");
    reveal_strlit("Left");
    reveal_strlit("Right");
    reveal_strlit("Full");
    reveal_strlit("LeftSemi");
    reveal_strlit("RightSemi");
    reveal_strlit("LeftAnti");
    reveal_strlit("RightAnti");
    reveal_strlit("LeftMark");
    reveal_strlit("LeftGroup");
    reveal_strlit("INNER");
    reveal_strlit("LEFT");
    reveal_strlit("RIGHT");
    reveal_strlit("FULL");
    reveal_strlit("LEFTSEMI");
    reveal_strlit("RIGHTSEMI");
    reveal_strlit("LEFTANTI");
    reveal_strlit("RIGHTANTI");
    reveal_strlit("LEFTMARK");
    reveal_strlit("LEFTGROUP");
    match t {
        JoinType::Inner => {
            assert(upper_ascii("Inner"@) =~= "INNER"@);
        },
        JoinType::Outer(JoinSide::Left) => {
            assert(upper_ascii("Left"@) =~= "LEFT"@);
        },
        JoinType::Outer(JoinSide::Right) => {
            assert(upper_ascii("Right"@) =~= "RIGHT"@);
            assert("RIGHT"@[0] != "INNER"@[0]);
        },
        JoinType::Full => {
            assert(upper_ascii("Full"@) =~= "FULL"@);
            assert("FULL"@[0] != "LEFT"@[0]);
        },
        JoinType::Semi(JoinSide::Left) => {
            assert(upper_ascii("LeftSemi"@) =~= "LEFTSEMI"@);
        },
        JoinType::Semi(JoinSide::Right) => {
            assert(upper_ascii("RightSemi"@) =~= "RIGHTSEMI"@);
        },
        JoinType::Anti(JoinSide::Left) => {
            assert(upper_ascii("LeftAnti"@) =~= "LEFTANTI"@);
            assert("LEFTANTI"@[4] != "LEFTSEMI"@[4]);
        },
        JoinType::Anti(JoinSide::Right) => {
            assert(upper_ascii("RightAnti"@) =~= "RIGHTANTI"@);
            assert("RIGHTANTI"@[0] != "INNER"@[0]);
            assert("RIGHTANTI"@[5] != "RIGHTSEMI"@[5]);
        },
        JoinType::LeftMark => {
            assert(upper_ascii("LeftMark"@) =~= "LEFTMARK"@);
            assert("LEFTMARK"@[4] != "LEFTSEMI"@[4]);
            assert("LEFTMARK"@[4] != "LEFTANTI"@[4]);
        },
        JoinType::LeftGroup => {
            assert(upper_ascii("LeftGroup"@) =~= "LEFTGROUP"@);
            assert("LEFTGROUP"@[0] != "RIGHTSEMI"@[0]);
            assert("LEFTGROUP"@[0] != "RIGHTANTI"@[0]);
        },
    }
}

} // verus!
