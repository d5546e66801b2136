//! Laws of the texts for humans.

use vstd::prelude::*;

use crate::duration::{duration_text, Duration};
use crate::error::{kind_text, IoError};
use crate::resource::WriteError;
use crate::text::{applied_text, decimal, decimal_text};

verus! {

/// The number which the digits stand for, the last one being the units.
pub open spec fn number(text: Seq<char>) -> int
    decreases text.len(),
{
    if text.len() == 0 {
        0
    } else {
        number(text.drop_last()) * 10 + (text.last() as int - '0' as int)
    }
}

proof fn lemma_decimal(n: nat)
    ensures
        number(decimal(n)) == n,
        decimal(n).len() > 0,
        decimal(n)[0] == '0' ==> n == 0 && decimal(n).len() == 1,
        forall|i: int|
            0 <= i < decimal(n).len() ==> '0' as int <= #[trigger] decimal(n)[i] as int
                && decimal(n)[i] as int <= '9' as int,
    decreases n,
{
    reveal_strlit("0123456789");
    reveal_with_fuel(number, 2);
    let text = decimal(n);
    let unit = (n % 10) as int;
    assert("0123456789"@[unit] as int == '0' as int + unit);
    if n >= 10 {
        lemma_decimal(n / 10);
        assert(text.drop_last() =~= decimal(n / 10));
        assert(text[0] == decimal(n / 10)[0]);
        assert forall|i: int| 0 <= i < text.len() implies '0' as int <= #[trigger] text[i] as int
            && text[i] as int <= '9' as int by {
            if i < text.len() - 1 {
                assert(text[i] == decimal(n / 10)[i]);
            }
        }
    } else {
        assert(text.drop_last() =~= Seq::empty());
    }
}

/// The text of a number consists of decimal digits which stand for that number. It starts with a
/// zero just if the number is zero, and then there is nothing more.
pub proof fn law_number_is_written(n: u64, text: String)
    requires
        call_ensures(decimal_text, (n,), text),
    ensures
        number(text@) == n,
        text@.len() > 0,
        text@[0] == '0' ==> n == 0 && text@.len() == 1,
        forall|i: int|
            0 <= i < text@.len() ==> '0' as int <= #[trigger] text@[i] as int && text@[i] as int
                <= '9' as int,
{
    lemma_decimal(n as nat);
}

/// The argument follows the name in brackets.
pub proof fn law_argument_is_in_brackets(name: &str, arg: &str, text: String)
    requires
        call_ensures(applied_text, (name, arg), text),
    ensures
        text@.len() == name@.len() + arg@.len() + 2,
        text@.subrange(0, name@.len() as int) == name@,
        text@[name@.len() as int] == '(',
        text@.subrange(name@.len() as int + 1, text@.len() - 1) == arg@,
        text@.last() == ')',
{
    reveal_strlit("(");
    reveal_strlit(")");
}

/// A span is shown by its whole seconds and the nanoseconds beyond them.
pub proof fn law_duration_is_shown(secs: u64, nanos: u32, duration: Duration, text: String)
    requires
        nanos < 1_000_000_000,
        call_ensures(Duration::new, (secs, nanos), duration),
        call_ensures(Duration::to_string, (&duration,), text),
    ensures
        text@ == duration_text(secs, nanos),
{
}

/// An error is shown by what has caused it, if that is known, and by its kind if not.
pub proof fn law_error_is_shown(err: IoError, text: String)
    requires
        call_ensures(IoError::to_string, (&err,), text),
    ensures
        match err.source {
            Some(source) => vstd::string::to_string_from_display_ensures(&source, text),
            None => text@ == kind_text(err.kind),
        },
{
}

/// An error of a failed write is shown as the error itself.
pub proof fn law_write_error_is_shown(write: WriteError, text: String)
    requires
        call_ensures(WriteError::to_string, (&write,), text),
    ensures
        write is NotReady ==> text@ == "resource not ready to accept the data"@,
        write matches WriteError::Io(err) ==> call_ensures(IoError::to_string, (&err,), text),
{
}

} // verus!
