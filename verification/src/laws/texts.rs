//! Laws of texts and numbers.

use vstd::prelude::*;

use crate::paths;
use crate::text;

verus! {

/// White space is made up of these code points and no others.
pub proof fn white_space_is_a_fixed_set(c: char)
    ensures
        text::is_white_space(c) <==> {
            ||| 0x9 <= c as int <= 0xd
            ||| c as int == 0x20
            ||| c as int == 0x85
            ||| c as int == 0xa0
            ||| c as int == 0x1680
            ||| 0x2000 <= c as int <= 0x200a
            ||| 0x2028 <= c as int <= 0x2029
            ||| c as int == 0x202f
            ||| c as int == 0x205f
            ||| c as int == 0x3000
        },
{
}

/// A text is blank exactly if no character of it is anything but white space, however long it is.
pub proof fn a_blank_text_holds_nothing_but_white_space(s: Seq<char>)
    ensures
        text::is_blank(s) <==> !(exists|i: int|
            0 <= i < s.len() && !text::is_white_space(#[trigger] s[i])),
{
}

/// Two texts are the same but for case exactly if they are equally long and differ, where they
/// differ, by the two forms of one ASCII letter, whose numbers lie thirty-two apart.
pub proof fn case_is_that_of_ascii_letters(a: Seq<char>, b: Seq<char>)
    ensures
        text::same_ignoring_case(a, b) <==> a.len() == b.len() && forall|i: int|
            0 <= i < a.len() ==> {
                ||| #[trigger] a[i] == #[trigger] b[i]
                ||| 65 <= a[i] as int <= 90 && b[i] as int == a[i] as int + 32
                ||| 65 <= b[i] as int <= 90 && a[i] as int == b[i] as int + 32
            },
{
    let lower_a = text::ascii_lowered(a);
    let lower_b = text::ascii_lowered(b);
    assert(lower_a.len() == a.len() && lower_b.len() == b.len());
    assert(forall|i: int| 0 <= i < a.len() ==> #[trigger] lower_a[i] == text::ascii_lower(a[i]));
    assert(forall|i: int| 0 <= i < b.len() ==> #[trigger] lower_b[i] == text::ascii_lower(b[i]));
    if text::same_ignoring_case(a, b) {
        assert forall|i: int| 0 <= i < a.len() implies {
            ||| #[trigger] a[i] == #[trigger] b[i]
            ||| 65 <= a[i] as int <= 90 && b[i] as int == a[i] as int + 32
            ||| 65 <= b[i] as int <= 90 && a[i] as int == b[i] as int + 32
        } by {
            assert(lower_a[i] == lower_b[i]);
        }
    }
    if a.len() == b.len() && forall|i: int|
        0 <= i < a.len() ==> {
            ||| #[trigger] a[i] == #[trigger] b[i]
            ||| 65 <= a[i] as int <= 90 && b[i] as int == a[i] as int + 32
            ||| 65 <= b[i] as int <= 90 && a[i] as int == b[i] as int + 32
        } {
        assert forall|i: int| 0 <= i < a.len() implies lower_a[i] == lower_b[i] by {
            assert(a[i] == a[i] && b[i] == b[i]);
        }
        assert(lower_a =~= lower_b);
    }
}

/// `kept` is what is left of `s` when nothing but white space is taken off its two ends, and as much
/// of it as there is.
pub open spec fn is_stripped(s: Seq<char>, kept: Seq<char>) -> bool {
    &&& exists|before: Seq<char>, behind: Seq<char>|
        text::is_blank(before) && text::is_blank(behind) && s == #[trigger] (before + kept + behind)
    &&& kept.len() > 0 ==> !text::is_white_space(kept[0]) && !text::is_white_space(
        kept[kept.len() - 1],
    )
}

proof fn lemma_start(s: Seq<char>) -> (from: int)
    ensures
        0 <= from <= s.len(),
        text::trimmed_start(s) == s.skip(from),
        text::is_blank(s.take(from)),
        from < s.len() ==> !text::is_white_space(s[from]),
    decreases s.len(),
{
    if s.len() > 0 && text::is_white_space(s.first()) {
        let rest = s.drop_first();
        let from = lemma_start(rest) + 1;
        assert(rest.skip(from - 1) =~= s.skip(from));
        assert forall|i: int| 0 <= i < from implies text::is_white_space(
            #[trigger] s.take(from)[i],
        ) by {
            if i > 0 {
                assert(rest.take(from - 1)[i - 1] == s.take(from)[i]);
            }
        }
        from
    } else {
        assert(s.skip(0) =~= s);
        0
    }
}

proof fn lemma_end(s: Seq<char>) -> (to: int)
    ensures
        0 <= to <= s.len(),
        text::trimmed_end(s) == s.take(to),
        text::is_blank(s.skip(to)),
        to > 0 ==> !text::is_white_space(s[to - 1]),
    decreases s.len(),
{
    if s.len() > 0 && text::is_white_space(s.last()) {
        let rest = s.drop_last();
        let to = lemma_end(rest);
        assert(rest.take(to) =~= s.take(to));
        assert forall|i: int| 0 <= i < s.len() - to implies text::is_white_space(
            #[trigger] s.skip(to)[i],
        ) by {
            if i < s.len() - 1 - to {
                assert(rest.skip(to)[i] == s.skip(to)[i]);
            }
        }
        to
    } else {
        assert(s.take(s.len() as int) =~= s);
        s.len() as int
    }
}

/// Trimming takes white space off the two ends of a text, all that is there, and nothing else.
pub proof fn trimming_strips_white_space_only(s: Seq<char>)
    ensures
        is_stripped(s, text::trimmed(s)),
{
    let from = lemma_start(s);
    let rest = s.skip(from);
    let to = lemma_end(rest);
    let kept = rest.take(to);
    let before = s.take(from);
    let behind = rest.skip(to);
    assert(text::trimmed(s) == kept);
    assert(s =~= before + kept + behind);
    if kept.len() > 0 {
        assert(kept[0] == s[from]);
        assert(kept[kept.len() - 1] == rest[to - 1]);
    }
}

/// The text of a path is the one that the path was written as, whichever that is, and only a path
/// that cannot have been written as a text has none.
pub proof fn a_written_path_has_its_text(path: Seq<u8>, written: Seq<char>)
    ensures
        paths::unicode_text(path) == Some(written) <==> path == vstd::utf8::encode_utf8(written),
        paths::unicode_text(path) is None ==> path != vstd::utf8::encode_utf8(written),
{
    vstd::utf8::encode_utf8_valid_utf8(written);
    vstd::utf8::encode_utf8_decode_utf8(written);
    if vstd::utf8::valid_utf8(path) {
        vstd::utf8::decode_utf8_encode_utf8(path);
    }
}

/// The number that is read from a row of decimal digits.
pub open spec fn number_read(digits: Seq<char>) -> int
    decreases digits.len(),
{
    if digits.len() == 0 {
        0
    } else {
        number_read(digits.drop_last()) * 10 + (digits.last() as int - 48)
    }
}

proof fn lemma_decimal_is_read_back(n: nat)
    ensures
        number_read(text::decimal(n)) == n,
        text::decimal(n).len() > 0,
        n > 0 ==> text::decimal(n).first() != '0',
    decreases n,
{
    if n < 10 {
        assert(text::decimal(n).drop_last() =~= Seq::empty());
        assert(number_read(Seq::<char>::empty()) == 0);
    } else {
        lemma_decimal_is_read_back(n / 10);
        assert(text::decimal(n).drop_last() =~= text::decimal(n / 10));
        assert(text::decimal(n).first() == text::decimal(n / 10).first());
    }
}

/// A number that was written is read back as the same number. It is written with decimal digits
/// only, and with no zero in front of another digit.
pub proof fn a_written_number_is_read_back(n: u32, written: String)
    requires
        call_ensures(text::decimal_text, (n,), written),
    ensures
        number_read(written@) == n,
        written@.len() > 0,
        forall|i: int| 0 <= i < written@.len() ==> 48 <= #[trigger] written@[i] as int <= 57,
        written@.len() > 1 ==> written@[0] != '0',
        written@ == text::decimal(n as nat),
{
    lemma_decimal_is_read_back(n as nat);
    text::decimal_holds_digits(n as nat);
}

} // verus!
