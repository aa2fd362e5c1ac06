use vstd::prelude::*;
use vstd::std_specs::iter::IteratorSpec;

verus! {

/// The characters of `s`, in order, as a vector.
pub fn chars_vec(s: &str) -> (r: Vec<char>)
    ensures
        r@ == s@,
{
    broadcast use vstd::string::axiom_spec_iter;
    broadcast use vstd::string::next_postcondition;

    let mut it = s.chars();
    let mut out: Vec<char> = Vec::new();
    assert(IteratorSpec::remaining(&it) == s@);
    loop
        invariant
            it.obeys_prophetic_iter_laws(),
            IteratorSpec::decrease(&it) is Some,
            out@ + IteratorSpec::remaining(&it) == s@,
        ensures
            out@ == s@,
        decreases IteratorSpec::decrease(&it)->Some_0,
    {
        let ghost pre = out@;
        let ghost rem = IteratorSpec::remaining(&it);
        match it.next() {
            Some(c) => {
                out.push(c);
                proof {
                    assert(out@ + IteratorSpec::remaining(&it) =~= pre + rem);
                }
            },
            None => {
                proof {
                    assert(out@ =~= s@);
                }
                break;
            },
        }
    }
    out
}

/// Relies on `String::push`: appends one character at the end.
#[verifier::external_body]
fn push_char(s: &mut String, c: char)
    ensures
        final(s)@ == old(s)@.push(c),
{
    s.push(c);
}

/// A string holding exactly the characters of `cs`, in order.
pub fn string_from_chars(cs: &Vec<char>) -> (r: String)
    ensures
        r@ == cs@,
{
    let mut out = String::new();
    let mut i: usize = 0;
    while i < cs.len()
        invariant
            0 <= i <= cs.len(),
            out@ == cs@.take(i as int),
        decreases cs.len() - i,
    {
        push_char(&mut out, cs[i]);
        proof {
            assert(out@ =~= cs@.take(i + 1));
        }
        i += 1;
    }
    assert(out@ =~= cs@);
    out
}

/// The pieces of `s` between occurrences of the separator `c`, in order;
/// there is always one more piece than there are separators, and empty
/// pieces are kept.
pub open spec fn split_spec(s: Seq<char>, c: char) -> Seq<Seq<char>>
    decreases s.len(),
{
    if s.len() == 0 {
        seq![Seq::<char>::empty()]
    } else {
        let rest = split_spec(s.drop_first(), c);
        if s[0] == c {
            seq![Seq::<char>::empty()] + rest
        } else {
            seq![seq![s[0]] + rest[0]] + rest.drop_first()
        }
    }
}

pub proof fn lemma_split_len(s: Seq<char>, c: char)
    ensures
        split_spec(s, c).len() >= 1,
    decreases s.len(),
{
    if s.len() > 0 {
        lemma_split_len(s.drop_first(), c);
    }
}

/// Split `v` at every occurrence of `c`, as `split_spec` states.
pub fn split_chars(v: &Vec<char>, c: char) -> (r: Vec<Vec<char>>)
    ensures
        r.deep_view() == split_spec(v@, c),
        r.len() >= 1,
{
    let ghost s = v@;
    let mut done: Vec<Vec<char>> = Vec::new();
    let mut cur: Vec<char> = Vec::new();
    let mut i: usize = 0;
    proof {
        lemma_split_len(s, c);
        assert(s.skip(0) =~= s);
    }
    while i < v.len()
        invariant
            0 <= i <= v.len(),
            s == v@,
            split_spec(s.skip(i as int), c).len() >= 1,
            split_spec(s, c) =~= done.deep_view() + seq![
                cur@ + split_spec(s.skip(i as int), c)[0],
            ] + split_spec(s.skip(i as int), c).drop_first(),
        decreases v.len() - i,
    {
        let ghost tail = s.skip(i as int);
        proof {
            assert(tail[0] == s[i as int]);
            assert(tail.drop_first() =~= s.skip(i + 1));
            lemma_split_len(s.skip(i + 1), c);
        }
        let ghost rest = split_spec(s.skip(i + 1), c);
        if v[i] == c {
            proof {
                assert(split_spec(tail, c) =~= seq![Seq::<char>::empty()] + rest);
            }
            let ghost dpre = done.deep_view();
            let finished = cur;
            done.push(finished);
            cur = Vec::new();
            proof {
                assert(done.deep_view() =~~= dpre.push(finished@));
                assert(split_spec(s, c) =~= done.deep_view() + seq![
                    cur@ + rest[0],
                ] + rest.drop_first());
            }
        } else {
            proof {
                assert(split_spec(tail, c) =~= seq![seq![tail[0]] + rest[0]] + rest.drop_first());
            }
            let ghost cpre = cur@;
            cur.push(v[i]);
            proof {
                assert(cur@ =~= cpre.push(s[i as int]));
                assert(cur@ + rest[0] =~= cpre + split_spec(tail, c)[0]);
                assert(split_spec(s, c) =~= done.deep_view() + seq![
                    cur@ + rest[0],
                ] + rest.drop_first());
            }
        }
        i += 1;
    }
    proof {
        assert(s.skip(v.len() as int) =~= Seq::<char>::empty());
        assert(split_spec(s.skip(v.len() as int), c) =~= seq![Seq::<char>::empty()]);
    }
    let ghost dpre = done.deep_view();
    let last = cur;
    done.push(last);
    proof {
        assert(done.deep_view() =~~= dpre.push(last@));
        assert(done.deep_view() =~~= split_spec(s, c));
    }
    done
}

/// A line with one trailing carriage return removed, if it ends in one.
pub open spec fn strip_cr(l: Seq<char>) -> Seq<char> {
    if l.len() > 0 && l.last() == '\r' {
        l.drop_last()
    } else {
        l
    }
}

} // verus!
