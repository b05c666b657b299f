//! Cookies as services hand them out and as requests carry them.

use vstd::prelude::*;
use crate::text::{
    ascii_lower, before, chars_of, drop_leading, join_names, lemma_dropped_ends,
    lemma_trimmed_twice, lower, same, separated, text_before, trim, trimmed, Blank,
};

verus! {

/// The pieces of a text between its semicolons.
pub open spec fn pieces(s: Seq<char>) -> Seq<Seq<char>>
    decreases s.len(),
{
    if s.len() == 0 {
        seq![Seq::empty()]
    } else if s.last() == ';' {
        pieces(s.drop_last()).push(Seq::empty())
    } else {
        let rest = pieces(s.drop_last());
        rest.drop_last().push(rest.last().push(s.last()))
    }
}

/// Whether a name is not that of a cookie, but of what a service says of one.
pub open spec fn describes(name: Seq<char>) -> bool {
    name == "path"@ || name == "domain"@ || name == "expires"@ || name == "max-age"@ || name
        == "samesite"@ || name == "secure"@ || name == "httponly"@
}

/// Whether a piece without blanks around it is a cookie.
pub open spec fn is_cookie(piece: Seq<char>) -> bool {
    piece.len() > 0 && !describes(lower(trimmed(before(piece, '='))))
}

/// The cookies among some pieces.
pub open spec fn cookies(parts: Seq<Seq<char>>) -> Seq<Seq<char>>
    decreases parts.len(),
{
    if parts.len() == 0 {
        Seq::empty()
    } else if is_cookie(trimmed(parts.last())) {
        cookies(parts.drop_last()).push(trimmed(parts.last()))
    } else {
        cookies(parts.drop_last())
    }
}

/// A cookie text as requests carry it: the cookies in it, and nothing of what the
/// service says of them.
pub open spec fn tidy(s: Seq<char>) -> Seq<char> {
    separated(cookies(pieces(s)), "; "@)
}

proof fn lemma_some_piece(s: Seq<char>)
    ensures
        pieces(s).len() > 0,
    decreases s.len(),
{
    if s.len() > 0 {
        lemma_some_piece(s.drop_last());
    }
}

fn is_description(name: &str) -> (r: bool)
    ensures
        r == describes(name@),
{
    same(name, "path") || same(name, "domain") || same(name, "expires") || same(name, "max-age")
        || same(name, "samesite") || same(name, "secure") || same(name, "httponly")
}

/// Takes a piece that is complete.
fn take_piece(out: &mut Vec<String>, piece: &str)
    ensures
        final(out)@.map_values(|s: String| s@) == (if is_cookie(trimmed(piece@)) {
            old(out)@.map_values(|s: String| s@).push(trimmed(piece@))
        } else {
            old(out)@.map_values(|s: String| s@)
        }),
{
    let cookie = trim(piece);
    let name = ascii_lower(trim(text_before(cookie.as_str(), '=').as_str()).as_str());
    if !cookie.as_str().is_empty() && !is_description(name.as_str()) {
        let ghost so_far = out@;
        out.push(cookie);
        assert(out@.map_values(|s: String| s@) =~= so_far.map_values(|s: String| s@).push(
            cookie@,
        ));
    }
}

/// Leaves of a cookie text what requests carry.
pub fn tidy_cookie(cookie: &str) -> (r: String)
    ensures
        r@ == tidy(cookie@),
{
    let v = chars_of(cookie);
    let n: usize = v.len();
    let mut out: Vec<String> = Vec::new();
    let mut piece = String::new();
    let mut i: usize = 0;
    proof {
        assert(v@.take(0) =~= Seq::<char>::empty());
        assert(out@.map_values(|s: String| s@) =~= Seq::<Seq<char>>::empty());
        assert(pieces(v@.take(0)).drop_last() =~= Seq::<Seq<char>>::empty());
    }
    while i < n
        invariant
            i <= n,
            n == v@.len(),
            v@ == cookie@,
            pieces(v@.take(i as int)).len() > 0,
            piece@ == pieces(v@.take(i as int)).last(),
            out@.map_values(|s: String| s@) == cookies(pieces(v@.take(i as int)).drop_last()),
        decreases n - i,
    {
        let c = v[i];
        proof {
            assert(v@.take(i + 1).drop_last() =~= v@.take(i as int));
            lemma_some_piece(v@.take(i + 1));
        }
        if c == ';' {
            let ghost parts = pieces(v@.take(i as int));
            take_piece(&mut out, piece.as_str());
            piece = String::new();
            proof {
                assert(pieces(v@.take(i + 1)).drop_last() =~= parts);
                assert(piece@ =~= Seq::<char>::empty());
            }
        } else {
            let ghost parts = pieces(v@.take(i as int));
            piece.push(c);
            proof {
                assert(pieces(v@.take(i + 1)).drop_last() =~= parts.drop_last());
            }
        }
        i = i + 1;
    }
    proof {
        assert(v@.take(n as int) =~= v@);
    }
    take_piece(&mut out, piece.as_str());
    join_names(&out, "; ")
}

proof fn lemma_piece_behind(a: Seq<char>, t: Seq<char>)
    requires
        !t.contains(';'),
    ensures
        pieces(a + seq![';'] + t) == pieces(a).push(t),
    decreases t.len(),
{
    let whole = a + seq![';'] + t;
    if t.len() == 0 {
        assert(whole.drop_last() =~= a);
        assert(t =~= Seq::<char>::empty());
    } else {
        let front = t.drop_last();
        assert(whole.drop_last() =~= a + seq![';'] + front);
        assert(t.contains(t.last()));
        assert(!front.contains(';')) by {
            if front.contains(';') {
                let i = choose|i: int| 0 <= i < front.len() && front[i] == ';';
                assert(t[i] == ';');
            }
        }
        lemma_piece_behind(a, front);
        let rest = pieces(a).push(front);
        assert(rest.drop_last() =~= pieces(a));
        assert(front.push(t.last()) =~= t);
        assert(rest.drop_last().push(rest.last().push(t.last())) =~= pieces(a).push(t));
    }
}

proof fn lemma_one_piece(t: Seq<char>)
    requires
        !t.contains(';'),
    ensures
        pieces(t) =~= seq![t],
    decreases t.len(),
{
    if t.len() == 0 {
        assert(t =~= Seq::<char>::empty());
    } else {
        let front = t.drop_last();
        assert(t.contains(t.last()));
        assert(!front.contains(';')) by {
            if front.contains(';') {
                let i = choose|i: int| 0 <= i < front.len() && front[i] == ';';
                assert(t[i] == ';');
            }
        }
        lemma_one_piece(front);
        assert(front.push(t.last()) =~= t);
    }
}

/// No piece holds a semicolon.
proof fn lemma_pieces_are_free(s: Seq<char>, i: int)
    requires
        0 <= i < pieces(s).len(),
    ensures
        !pieces(s)[i].contains(';'),
    decreases s.len(),
{
    if s.len() > 0 {
        lemma_some_piece(s.drop_last());
        let rest = pieces(s.drop_last());
        if s.last() == ';' {
            if i < rest.len() {
                lemma_pieces_are_free(s.drop_last(), i);
            }
        } else if i < rest.len() - 1 {
            lemma_pieces_are_free(s.drop_last(), i);
        } else {
            lemma_pieces_are_free(s.drop_last(), rest.len() - 1);
            let last = rest.last().push(s.last());
            assert(!last.contains(';')) by {
                if last.contains(';') {
                    let k = choose|k: int| 0 <= k < last.len() && last[k] == ';';
                    assert(rest.last()[k] == ';');
                }
            }
        }
    }
}

/// Whether a cookie text stands by itself: no blanks around it and no semicolon in
/// it.
pub open spec fn stands(c: Seq<char>) -> bool {
    is_cookie(c) && trimmed(c) == c && !c.contains(';')
}

proof fn lemma_cookies_stand(parts: Seq<Seq<char>>, i: int)
    requires
        forall|k: int| 0 <= k < parts.len() ==> !(#[trigger] parts[k]).contains(';'),
        0 <= i < cookies(parts).len(),
    ensures
        stands(cookies(parts)[i]),
    decreases parts.len(),
{
    let rest = parts.drop_last();
    let last = parts.last();
    if i < cookies(rest).len() {
        lemma_cookies_stand(rest, i);
    } else {
        lemma_trimmed_twice(last);
        lemma_trimmed_is_part(last);
        assert(!trimmed(last).contains(';')) by {
            if trimmed(last).contains(';') {
                let k = choose|k: int| 0 <= k < trimmed(last).len() && trimmed(last)[k] == ';';
                assert(last.contains(trimmed(last)[k]));
                assert(!parts[parts.len() - 1].contains(';'));
            }
        }
    }
}

proof fn lemma_trimmed_is_part(s: Seq<char>)
    ensures
        forall|k: int|
            0 <= k < trimmed(s).len() ==> s.contains(#[trigger] trimmed(s)[k]),
{
    let led = drop_leading(s, Blank::White);
    lemma_dropped_ends(s, Blank::White);
    lemma_dropped_ends(led, Blank::White);
    assert forall|k: int| 0 <= k < trimmed(s).len() implies s.contains(
        #[trigger] trimmed(s)[k],
    ) by {
        assert(trimmed(s)[k] == led[k]);
        assert(led[k] == s[s.len() - led.len() + k]);
    }
}

proof fn lemma_cookies_come_back(cs: Seq<Seq<char>>)
    requires
        forall|k: int| 0 <= k < cs.len() ==> stands(#[trigger] cs[k]),
    ensures
        cookies(pieces(separated(cs, "; "@))) =~= cs,
    decreases cs.len(),
{
    reveal_strlit("; ");
    if cs.len() == 0 {
        let none = separated(cs, "; "@);
        assert(none =~= Seq::<char>::empty());
        lemma_one_piece(none);
        lemma_trimmed_is_part(none);
        assert(trimmed(none).len() == 0) by {
            if trimmed(none).len() > 0 {
                assert(none.contains(trimmed(none)[0]));
            }
        }
        let parts = pieces(none);
        assert(parts.last() == none);
        assert(parts.drop_last() =~= Seq::<Seq<char>>::empty());
        assert(cookies(parts.drop_last()) =~= Seq::<Seq<char>>::empty());
        assert(cookies(parts) =~= cs);
    } else if cs.len() == 1 {
        assert(stands(cs[0]));
        lemma_one_piece(cs[0]);
        let parts = pieces(cs[0]);
        assert(parts.last() == cs[0]);
        assert(parts.drop_last() =~= Seq::<Seq<char>>::empty());
        assert(cookies(parts.drop_last()) =~= Seq::<Seq<char>>::empty());
        assert(cookies(parts) =~= cs);
    } else {
        let front = cs.drop_last();
        let c = cs.last();
        assert(stands(cs[cs.len() - 1]));
        assert forall|k: int| 0 <= k < front.len() implies stands(#[trigger] front[k]) by {
            assert(stands(cs[k]));
        }
        lemma_cookies_come_back(front);
        let a = separated(front, "; "@);
        let t = seq![' '] + c;
        assert(!t.contains(';')) by {
            if t.contains(';') {
                let k = choose|k: int| 0 <= k < t.len() && t[k] == ';';
                assert(c[k - 1] == ';');
            }
        }
        lemma_piece_behind(a, t);
        assert(a + "; "@ + c =~= a + seq![';'] + t);
        let parts = pieces(a).push(t);
        assert(parts.drop_last() =~= pieces(a));
        assert(t.drop_first() =~= c);
        assert(drop_leading(t, Blank::White) == drop_leading(c, Blank::White));
        assert(trimmed(t) == c);
        assert(cookies(parts) =~= cs);
    }
}

/// A tidy cookie stays as it is.
pub proof fn tidying_settles(s: Seq<char>)
    ensures
        tidy(tidy(s)) == tidy(s),
{
    let parts = pieces(s);
    assert forall|k: int| 0 <= k < parts.len() implies !(#[trigger] parts[k]).contains(';') by {
        lemma_pieces_are_free(s, k);
    }
    let cs = cookies(parts);
    assert forall|k: int| 0 <= k < cs.len() implies stands(#[trigger] cs[k]) by {
        lemma_cookies_stand(parts, k);
    }
    lemma_cookies_come_back(cs);
}

/// A cookie that follows others is kept behind them, and what a service says of one is left
/// out.
pub proof fn cookies_are_kept_and_the_rest_left_out(front: Seq<char>, piece: Seq<char>)
    requires
        !piece.contains(';'),
    ensures
        !is_cookie(trimmed(piece)) ==> tidy(front + seq![';'] + piece) == tidy(front),
        is_cookie(trimmed(piece)) && cookies(pieces(front)).len() > 0 ==> tidy(
            front + seq![';'] + piece,
        ) == tidy(front) + "; "@ + trimmed(piece),
        is_cookie(trimmed(piece)) && cookies(pieces(front)).len() == 0 ==> tidy(
            front + seq![';'] + piece,
        ) == trimmed(piece),
{
    lemma_piece_behind(front, piece);
    let parts = pieces(front);
    assert(parts.push(piece).drop_last() =~= parts);
    if is_cookie(trimmed(piece)) {
        let kept = cookies(parts).push(trimmed(piece));
        assert(kept.drop_last() =~= cookies(parts));
    }
}

/// What a service says of a cookie is its path, its domain, its age and how it may be sent,
/// in small letters or large; everything else with a name is a cookie.
pub proof fn descriptions_are_no_cookies(name: Seq<char>)
    ensures
        describes(name) <==> name == "path"@ || name == "domain"@ || name == "expires"@ || name
            == "max-age"@ || name == "samesite"@ || name == "secure"@ || name == "httponly"@,
        !describes("token"@),
        !describes("userid"@),
        !describes("dfid"@),
{
    reveal_strlit("path");
    reveal_strlit("domain");
    reveal_strlit("expires");
    reveal_strlit("max-age");
    reveal_strlit("samesite");
    reveal_strlit("secure");
    reveal_strlit("httponly");
    reveal_strlit("token");
    reveal_strlit("userid");
    reveal_strlit("dfid");
    assert("token"@.len() == 5 && "userid"@.len() == 6 && "dfid"@.len() == 4 && "path"@.len() == 4
        && "domain"@.len() == 6 && "secure"@.len() == 6);
    assert("dfid"@[0] == 'd' && "path"@[0] == 'p' && "userid"@[0] == 'u' && "domain"@[0] == 'd'
        && "secure"@[0] == 's');
    assert("expires"@.len() == 7 && "max-age"@.len() == 7 && "samesite"@.len() == 8
        && "httponly"@.len() == 8);
}

} // verus!
