//! The search screen's own logic: the query sent to the catalog and the
//! selection in the result list.
use vstd::prelude::*;

verus! {

/// What percent-encoding makes of a text.
pub uninterp spec fn url_encoded(s: Seq<char>) -> Seq<char>;

/// Relies on `urlencoding::encode`: percent-encodes every byte but ASCII
/// letters, digits, `-`, `_`, `.` and `~`; the result depends on the text alone.
#[verifier::external_body]
fn url_encode(s: &str) -> (r: String)
    ensures
        r@ == url_encoded(s@),
{
    urlencoding::encode(s).into_owned()
}

/// `s` with each `%20`, scanned from the left, replaced by `+`.
pub open spec fn plus_for_space(s: Seq<char>) -> Seq<char>
    decreases s.len(),
{
    if s.len() < 3 {
        s
    } else if s[0] == '%' && s[1] == '2' && s[2] == '0' {
        seq!['+'] + plus_for_space(s.skip(3))
    } else {
        seq![s[0]] + plus_for_space(s.skip(1))
    }
}

/// Replaces each encoded space `%20` of an encoded query by `+`.
pub fn plus_spaces(encoded: &str) -> (r: String)
    ensures
        r@ == plus_for_space(encoded@),
{
    let n = encoded.unicode_len();
    let mut r = String::new();
    let mut i: usize = 0;
    proof {
        reveal_strlit("+");
    }
    assert("+"@ =~= seq!['+']);
    assert(encoded@.skip(0) =~= encoded@);
    assert(r@ + plus_for_space(encoded@.skip(0)) =~= plus_for_space(encoded@));
    while i < n
        invariant
            i <= n,
            n == encoded@.len(),
            r@ + plus_for_space(encoded@.skip(i as int)) == plus_for_space(encoded@),
        decreases n - i,
    {
        let ghost rest = encoded@.skip(i as int);
        if n - i >= 3 && encoded.get_char(i) == '%' && encoded.get_char(i + 1) == '2'
            && encoded.get_char(i + 2) == '0' {
            let ghost r0 = r@;
            proof {
                reveal_strlit("+");
            }
            assert("+"@ =~= seq!['+']);
            r.append("+");
            assert(r@ =~= r0 + seq!['+']);
            assert(rest[0] == '%' && rest[1] == '2' && rest[2] == '0');
            assert(plus_for_space(rest) == seq!['+'] + plus_for_space(rest.skip(3)));
            assert(rest.skip(3) =~= encoded@.skip(i + 3));
            assert(r@ + plus_for_space(encoded@.skip(i + 3)) =~= plus_for_space(encoded@));
            i = i + 3;
        } else {
            let c = encoded.substring_char(i, i + 1);
            r.append(c);
            assert(rest.skip(1) =~= encoded@.skip(i + 1));
            assert(c@ =~= seq![rest[0]]);
            if n - i >= 3 {
                assert(plus_for_space(rest) == seq![rest[0]] + plus_for_space(rest.skip(1)));
            } else {
                assert(plus_for_space(rest) == rest);
                assert(plus_for_space(rest.skip(1)) == rest.skip(1));
                assert(rest =~= seq![rest[0]] + rest.skip(1));
            }
            assert(r@ + plus_for_space(encoded@.skip(i + 1)) =~= plus_for_space(encoded@));
            i = i + 1;
        }
    }
    assert(encoded@.skip(n as int) =~= Seq::<char>::empty());
    assert(r@ + plus_for_space(encoded@.skip(n as int)) =~= r@);
    r
}

/// The query string sent to the catalog for a search text: percent-encoded,
/// with spaces written as `+`.
pub fn search_query(text: &str) -> (r: String)
    ensures
        r@ == plus_for_space(url_encoded(text@)),
{
    let encoded = url_encode(text);
    plus_spaces(encoded.as_str())
}

/// Moving the selection to `selected` in a list of `len` items: past the end
/// it wraps to the first item, before the start to the last one.
pub fn wrapped_selection(selected: isize, len: usize) -> (r: usize)
    ensures
        selected < 0 && len == 0 ==> r == 0,
        selected < 0 && len > 0 ==> r == len - 1,
        selected >= 0 && selected >= len ==> r == 0,
        0 <= selected < len ==> r == selected,
{
    if selected < 0 {
        if len == 0 {
            0
        } else {
            len - 1
        }
    } else if selected as usize >= len {
        0
    } else {
        selected as usize
    }
}

/// The item under row `row` of the result list, which starts one item
/// above the selected one (or at the first item); `None` past the end.
pub fn clicked_item(row: usize, selected: usize, len: usize) -> (r: Option<usize>)
    ensures
        r matches Some(i) ==> i < len,
        selected == 0 ==> r == if row < len {
            Some(row)
        } else {
            None::<usize>
        },
        selected > 0 ==> r == if row + selected - 1 < len {
            Some((row + selected - 1) as usize)
        } else {
            None::<usize>
        },
{
    let first = if selected == 0 {
        0
    } else {
        selected - 1
    };
    if row < len && first < len - row {
        Some(row + first)
    } else {
        None
    }
}

} // verus!
