//! The calculator's buttons and the editing of its display: which button a
//! name stands for, and how digits, the decimal point, backspace, negation
//! and the clear keys change the text shown. The arithmetic on the
//! displayed numbers is done by the host.

use vstd::prelude::*;

use crate::text::{chars_of, push_str, str_eq, string_from, string_from_chars, string_push};

verus! {

/// A calculator button, as its UI name denotes it.
#[derive(Clone, Copy, Debug, PartialEq, Eq, Structural)]
pub enum CalcButton {
    Digit(char),
    Decimal,
    Add,
    Sub,
    Mul,
    Div,
    Equals,
    Clear,
    ClearEntry,
    Backspace,
    Negate,
    Ignored,
}

/// The button a UI name denotes.
pub open spec fn button_of(name: Seq<char>) -> CalcButton {
    if name == "digit_0"@ {
        CalcButton::Digit('0')
    } else if name == "digit_1"@ {
        CalcButton::Digit('1')
    } else if name == "digit_2"@ {
        CalcButton::Digit('2')
    } else if name == "digit_3"@ {
        CalcButton::Digit('3')
    } else if name == "digit_4"@ {
        CalcButton::Digit('4')
    } else if name == "digit_5"@ {
        CalcButton::Digit('5')
    } else if name == "digit_6"@ {
        CalcButton::Digit('6')
    } else if name == "digit_7"@ {
        CalcButton::Digit('7')
    } else if name == "digit_8"@ {
        CalcButton::Digit('8')
    } else if name == "digit_9"@ {
        CalcButton::Digit('9')
    } else if name == "decimal"@ {
        CalcButton::Decimal
    } else if name == "op_add"@ {
        CalcButton::Add
    } else if name == "op_sub"@ {
        CalcButton::Sub
    } else if name == "op_mul"@ {
        CalcButton::Mul
    } else if name == "op_div"@ {
        CalcButton::Div
    } else if name == "op_equals"@ {
        CalcButton::Equals
    } else if name == "clear"@ {
        CalcButton::Clear
    } else if name == "clear_entry"@ {
        CalcButton::ClearEntry
    } else if name == "backspace"@ {
        CalcButton::Backspace
    } else if name == "negate"@ {
        CalcButton::Negate
    } else {
        CalcButton::Ignored
    }
}

/// The button a UI name denotes (see `button_of`).
pub fn classify_button(name: &str) -> (b: CalcButton)
    ensures
        b == button_of(name@),
{
    if str_eq(name, "digit_0") {
        CalcButton::Digit('0')
    } else if str_eq(name, "digit_1") {
        CalcButton::Digit('1')
    } else if str_eq(name, "digit_2") {
        CalcButton::Digit('2')
    } else if str_eq(name, "digit_3") {
        CalcButton::Digit('3')
    } else if str_eq(name, "digit_4") {
        CalcButton::Digit('4')
    } else if str_eq(name, "digit_5") {
        CalcButton::Digit('5')
    } else if str_eq(name, "digit_6") {
        CalcButton::Digit('6')
    } else if str_eq(name, "digit_7") {
        CalcButton::Digit('7')
    } else if str_eq(name, "digit_8") {
        CalcButton::Digit('8')
    } else if str_eq(name, "digit_9") {
        CalcButton::Digit('9')
    } else if str_eq(name, "decimal") {
        CalcButton::Decimal
    } else if str_eq(name, "op_add") {
        CalcButton::Add
    } else if str_eq(name, "op_sub") {
        CalcButton::Sub
    } else if str_eq(name, "op_mul") {
        CalcButton::Mul
    } else if str_eq(name, "op_div") {
        CalcButton::Div
    } else if str_eq(name, "op_equals") {
        CalcButton::Equals
    } else if str_eq(name, "clear") {
        CalcButton::Clear
    } else if str_eq(name, "clear_entry") {
        CalcButton::ClearEntry
    } else if str_eq(name, "backspace") {
        CalcButton::Backspace
    } else if str_eq(name, "negate") {
        CalcButton::Negate
    } else {
        CalcButton::Ignored
    }
}

/// What the calculator shows and the flags its editing depends on.
#[derive(Debug)]
pub struct CalcDisplay {
    pub display: String,
    pub pending_op: Option<char>,
    pub just_computed: bool,
    pub has_error: bool,
}

/// The display text's length in bytes.
pub open spec fn byte_len(s: Seq<char>) -> nat {
    vstd::utf8::encode_utf8(s).len()
}

/// The display after typing `digit`: ignored in the error state; a fresh
/// result or a lone "0" is replaced; at most 15 bytes are kept.
pub open spec fn after_digit(display: Seq<char>, just_computed: bool, digit: char) -> Seq<char> {
    let base = if just_computed || display == "0"@ {
        Seq::empty()
    } else {
        display
    };
    if byte_len(base) < 15 {
        base.push(digit)
    } else {
        base
    }
}

/// The display without its first character when it is negated, and with a
/// '-' in front otherwise (a lone "0" stays).
pub open spec fn negated(display: Seq<char>) -> Seq<char> {
    if display.len() > 0 && display[0] == '-' {
        display.skip(1)
    } else if display == "0"@ {
        display
    } else {
        seq!['-'] + display
    }
}

fn is_zero(s: &String) -> (r: bool)
    ensures
        r == (s@ == "0"@),
{
    str_eq(s.as_str(), "0")
}

impl CalcDisplay {
    /// A display showing "0" with nothing pending.
    pub fn new() -> (d: Self)
        ensures
            d.display@ == "0"@,
            d.pending_op is None,
            !d.just_computed,
            !d.has_error,
    {
        CalcDisplay { display: string_from("0"), pending_op: None, just_computed: false, has_error: false }
    }

    /// Type a digit (or the decimal point).
    pub fn handle_digit(&mut self, digit: char)
        ensures
            final(self).pending_op == old(self).pending_op,
            final(self).has_error == old(self).has_error,
            old(self).has_error ==> final(self).display@ == old(self).display@
                && final(self).just_computed == old(self).just_computed,
            !old(self).has_error ==> final(self).display@ == after_digit(
                old(self).display@,
                old(self).just_computed,
                digit,
            ) && !final(self).just_computed,
    {
        if self.has_error {
            return;
        }
        if self.just_computed || is_zero(&self.display) {
            self.display = String::new();
            self.just_computed = false;
            assert(self.display@ =~= Seq::<char>::empty());
            assert(byte_len(self.display@) == 0);
        }
        let n = self.display.as_str().as_bytes().len();
        assert(n == byte_len(self.display@));
        if n < 15 {
            string_push(&mut self.display, digit);
        }
    }

    /// Press the decimal point: typed unless the display already has one.
    pub fn press_decimal(&mut self)
        ensures
            final(self).pending_op == old(self).pending_op,
            final(self).has_error == old(self).has_error,
            old(self).display@.contains('.') ==> final(self).display@ == old(self).display@
                && final(self).just_computed == old(self).just_computed,
            old(self).has_error ==> final(self).display@ == old(self).display@
                && final(self).just_computed == old(self).just_computed,
            !old(self).display@.contains('.') && !old(self).has_error ==> final(self).display@
                == after_digit(old(self).display@, old(self).just_computed, '.')
                && !final(self).just_computed,
    {
        let cs = chars_of(self.display.as_str());
        if !crate::words::contains_char(cs.as_slice(), '.') {
            self.handle_digit('.');
        }
    }

    /// Clear everything shown and pending.
    pub fn clear(&mut self)
        ensures
            final(self).display@ == "0"@,
            final(self).pending_op is None,
            !final(self).just_computed,
            !final(self).has_error,
    {
        self.display = string_from("0");
        self.pending_op = None;
        self.just_computed = false;
        self.has_error = false;
    }

    /// Clear the entry: show "0" and leave the error state.
    pub fn clear_entry(&mut self)
        ensures
            final(self).display@ == "0"@,
            final(self).pending_op == old(self).pending_op,
            final(self).just_computed == old(self).just_computed,
            !final(self).has_error,
    {
        self.display = string_from("0");
        self.has_error = false;
    }

    /// Remove the last character while editing a number of more than one
    /// byte; otherwise show "0".
    pub fn backspace(&mut self)
        ensures
            final(self).pending_op == old(self).pending_op,
            final(self).just_computed == old(self).just_computed,
            final(self).has_error == old(self).has_error,
            final(self).display@ == if !old(self).has_error && !old(self).just_computed && byte_len(
                old(self).display@,
            ) > 1 {
                old(self).display@.drop_last()
            } else {
                "0"@
            },
    {
        let n = self.display.as_str().as_bytes().len();
        assert(n == byte_len(self.display@));
        if !self.has_error && !self.just_computed && n > 1 {
            let cs = chars_of(self.display.as_str());
            assert(cs@.len() > 0) by {
                if cs@.len() == 0 {
                    assert(cs@ =~= Seq::<char>::empty());
                    assert(byte_len(cs@) == 0);
                }
            }
            let kept = crate::service::slice_chars(cs.as_slice(), 0, cs.len() - 1);
            assert(kept@ =~= self.display@.drop_last());
            self.display = string_from_chars(kept.as_slice());
        } else {
            self.display = string_from("0");
        }
    }

    /// Change the sign of the shown number (not in the error state).
    pub fn negate(&mut self)
        ensures
            final(self).pending_op == old(self).pending_op,
            final(self).just_computed == old(self).just_computed,
            final(self).has_error == old(self).has_error,
            final(self).display@ == if old(self).has_error {
                old(self).display@
            } else {
                negated(old(self).display@)
            },
    {
        if self.has_error {
            return;
        }
        let cs = chars_of(self.display.as_str());
        if cs.len() > 0 && cs[0] == '-' {
            let rest = crate::service::slice_chars(cs.as_slice(), 1, cs.len());
            assert(rest@ =~= self.display@.skip(1));
            self.display = string_from_chars(rest.as_slice());
        } else if !is_zero(&self.display) {
            proof {
                reveal_strlit("-");
            }
            let mut s = string_from("-");
            push_str(&mut s, self.display.as_str());
            self.display = s;
        }
    }

    /// Show the error state.
    pub fn set_error(&mut self)
        ensures
            final(self).display@ == "Error"@,
            final(self).has_error,
            final(self).pending_op == old(self).pending_op,
            final(self).just_computed == old(self).just_computed,
    {
        self.display = string_from("Error");
        self.has_error = true;
    }
}

/// Changing the sign twice shows the number as it was, for any display the
/// calculator shows: at most one leading minus, and never a negative zero.
pub proof fn lemma_negate_twice(display: Seq<char>)
    requires
        display != "-0"@,
        !(display.len() >= 2 && display[0] == '-' && display[1] == '-'),
    ensures
        negated(negated(display)) == display,
{
    reveal_strlit("0");
    reveal_strlit("-0");
    if display.len() > 0 && display[0] == '-' {
        let rest = display.skip(1);
        assert(seq!['-'] + rest =~= display);
        if rest == "0"@ {
            assert("-0"@ =~= seq!['-'] + "0"@);
            assert(false);
        }
    } else if display != "0"@ {
        assert((seq!['-'] + display).skip(1) =~= display);
    }
}

/// Each operation button is named after what it does, and no other name
/// stands for it: "op_add" and only it adds, "op_sub" subtracts, "op_mul"
/// multiplies, "op_div" divides, "op_equals" computes; a digit button is
/// "digit_" followed by its digit.
pub proof fn lemma_button_names(name: Seq<char>)
    ensures
        button_of(name) == CalcButton::Add <==> name == "op_add"@,
        button_of(name) == CalcButton::Sub <==> name == "op_sub"@,
        button_of(name) == CalcButton::Mul <==> name == "op_mul"@,
        button_of(name) == CalcButton::Div <==> name == "op_div"@,
        button_of(name) == CalcButton::Equals <==> name == "op_equals"@,
        forall|d: char|
            '0' <= d <= '9' ==> (#[trigger] button_of(name) == CalcButton::Digit(d) <==> name == "digit_"@
                + seq![d]),
{
    reveal_strlit("digit_");
    reveal_strlit("digit_0");
    reveal_strlit("digit_1");
    reveal_strlit("digit_2");
    reveal_strlit("digit_3");
    reveal_strlit("digit_4");
    reveal_strlit("digit_5");
    reveal_strlit("digit_6");
    reveal_strlit("digit_7");
    reveal_strlit("digit_8");
    reveal_strlit("digit_9");
    reveal_strlit("decimal");
    reveal_strlit("op_add");
    reveal_strlit("op_sub");
    reveal_strlit("op_mul");
    reveal_strlit("op_div");
    reveal_strlit("op_equals");
    assert("decimal"@.len() == 7 && "digit_0"@.len() == 7 && "op_add"@.len() == 6);
    assert("op_sub"@.len() == 6 && "op_mul"@.len() == 6 && "op_div"@.len() == 6);
    assert("op_equals"@.len() == 9);
    if name == "op_add"@ {
        assert(button_of(name) == CalcButton::Add);
    } else if name == "op_sub"@ {
        assert(name != "op_add"@) by {
            assert(name[3] != "op_add"@[3]);
        }
        assert(button_of(name) == CalcButton::Sub);
    } else if name == "op_mul"@ {
        assert(name[3] != "op_add"@[3] && name[3] != "op_sub"@[3]);
        assert(button_of(name) == CalcButton::Mul);
    } else if name == "op_div"@ {
        assert(name[3] != "op_add"@[3] && name[3] != "op_sub"@[3] && name[3] != "op_mul"@[3]);
        assert(button_of(name) == CalcButton::Div);
    } else if name == "op_equals"@ {
        assert(button_of(name) == CalcButton::Equals);
    } else {
        assert(button_of(name) != CalcButton::Add && button_of(name) != CalcButton::Sub);
        assert(button_of(name) != CalcButton::Mul && button_of(name) != CalcButton::Div);
        assert(button_of(name) != CalcButton::Equals);
    }
    assert forall|d: char| '0' <= d <= '9' implies (#[trigger] button_of(name) == CalcButton::Digit(d) <==> name
        == "digit_"@ + seq![d]) by {
        let n = "digit_"@ + seq![d];
        assert(n =~= seq!['d', 'i', 'g', 'i', 't', '_', d]);
        if d == '0' {
            assert("digit_0"@ =~= n);
        } else if d == '1' {
            assert("digit_1"@ =~= n);
        } else if d == '2' {
            assert("digit_2"@ =~= n);
        } else if d == '3' {
            assert("digit_3"@ =~= n);
        } else if d == '4' {
            assert("digit_4"@ =~= n);
        } else if d == '5' {
            assert("digit_5"@ =~= n);
        } else if d == '6' {
            assert("digit_6"@ =~= n);
        } else if d == '7' {
            assert("digit_7"@ =~= n);
        } else if d == '8' {
            assert("digit_8"@ =~= n);
        } else {
            assert("digit_9"@ =~= n);
        }
    }
}

} // verus!
