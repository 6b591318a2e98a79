use vstd::prelude::*;

verus! {

/// The largest term count the generators accept: the 92nd term is the last
/// Fibonacci number that fits in an `i64`.
pub const MAX_TERMS: usize = 92;

/// What a menu selection asks the program to do.  Any selection other than
/// 1 through 4 falls back to plain fixed-count generation.
#[derive(Debug, PartialEq, Eq, Structural, Clone, Copy)]
pub enum MenuAction {
    /// Option 1: generate a fixed number of terms.
    ByCount,
    /// Option 2: generate every term up to a maximum value.
    UpToMax,
    /// Option 3: fixed count, with the statistics block.
    WithStats,
    /// Option 4: fixed count, laid out in columns.
    Columns,
    /// Any other selection: fixed count, plain display, silent on a zero
    /// count.
    Fallback,
}

/// The verdict on a requested term count: rejected when zero, clamped to
/// `MAX_TERMS` when too large, accepted as given otherwise.
#[derive(Debug, PartialEq, Eq, Structural, Clone, Copy)]
pub enum CountValidation {
    /// A zero count: the caller reports an error and generates nothing.
    Rejected,
    /// A count above `MAX_TERMS`: the caller warns and generates this many
    /// terms instead.
    Clamped(usize),
    /// A count in range, to be used as given.
    Accepted(usize),
}

/// Maps a menu selection to the action it stands for.
pub fn menu_action(choice: usize) -> (action: MenuAction)
    ensures
        action == (match choice {
            1 => MenuAction::ByCount,
            2 => MenuAction::UpToMax,
            3 => MenuAction::WithStats,
            4 => MenuAction::Columns,
            _ => MenuAction::Fallback,
        }),
{
    match choice {
        1 => MenuAction::ByCount,
        2 => MenuAction::UpToMax,
        3 => MenuAction::WithStats,
        4 => MenuAction::Columns,
        _ => MenuAction::Fallback,
    }
}

/// Validates a requested term count: zero is rejected, anything above
/// `MAX_TERMS` is clamped to it, and anything else is accepted unchanged.
pub fn validate_term_count(n: usize) -> (v: CountValidation)
    ensures
        n == 0 ==> v == CountValidation::Rejected,
        n > MAX_TERMS ==> v == CountValidation::Clamped(MAX_TERMS),
        1 <= n <= MAX_TERMS ==> v == CountValidation::Accepted(n),
{
    if n == 0 {
        CountValidation::Rejected
    } else if n > MAX_TERMS {
        CountValidation::Clamped(MAX_TERMS)
    } else {
        CountValidation::Accepted(n)
    }
}

/// A maximum value is usable exactly when it is non-negative.
pub fn validate_max_value(max_value: i64) -> (ok: bool)
    ensures
        ok <==> 0 <= max_value,
{
    0 <= max_value
}

} // verus!
