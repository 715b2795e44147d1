//! What holds of the codec as a whole: of writing and reading together, and
//! of reading on every input.

mod cursor;
mod errors;
mod escaping;
mod numbers;
mod scanning;
mod tuples;
mod values;

pub use cursor::{cursor_moves_forward, forward, value_takes_whole_input};
pub use errors::{errors_by_kind, measured, sorted};
pub use escaping::{doubled, unescape_inverts_escape};
pub use numbers::{leading_zero_rule, overflow_boundary};
pub use scanning::{outside, passes};
pub use tuples::{
    begins, flat, gap, round_trip, too_few_elements, too_many_elements, upto, written_from,
};
pub use values::{blank, tight};
