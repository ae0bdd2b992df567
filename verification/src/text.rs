use vstd::prelude::*;
use vstd::string::StringExecFns;

verus! {

/// The character sequences of a list of strings.
pub open spec fn seq_views(parts: Seq<String>) -> Seq<Seq<char>> {
    parts.map_values(|p: String| p@)
}

/// The parts joined with `sep` between consecutive parts.
pub open spec fn spec_joined(parts: Seq<Seq<char>>, sep: Seq<char>) -> Seq<char>
    decreases parts.len(),
{
    if parts.len() == 0 {
        Seq::empty()
    } else if parts.len() == 1 {
        parts[0]
    } else {
        spec_joined(parts.drop_last(), sep) + sep + parts.last()
    }
}

/// `needle` occurs contiguously somewhere inside `hay`.
pub open spec fn contains_seq(hay: Seq<char>, needle: Seq<char>) -> bool {
    exists|k: int|
        #![trigger hay.subrange(k, k + needle.len())]
        0 <= k && k + needle.len() <= hay.len() && hay.subrange(k, k + needle.len()) == needle
}

/// Append clones of every element of `parts` to `v`.
pub fn push_all_cloned(v: &mut Vec<String>, parts: &Vec<String>)
    ensures
        final(v)@ == old(v)@ + parts@,
{
    let ghost orig: Seq<String> = v@;
    let mut i: usize = 0;
    while i < parts.len()
        invariant
            i <= parts.len(),
            v@ == orig + parts@.subrange(0, i as int),
        decreases parts.len() - i,
    {
        v.push(parts[i].clone());
        proof {
            assert(v@ =~= orig + parts@.subrange(0, i + 1));
        }
        i += 1;
    }
    proof {
        assert(orig + parts@.subrange(0, parts@.len() as int) =~= orig + parts@);
    }
}

/// Join a list of strings, placing the separator between consecutive parts.
pub fn join_strings(parts: &Vec<String>, sep: &str) -> (r: String)
    ensures
        r@ == spec_joined(seq_views(parts@), sep@),
{
    let mut r = String::new();
    let mut i: usize = 0;
    while i < parts.len()
        invariant
            i <= parts.len(),
            r@ == spec_joined(seq_views(parts@).subrange(0, i as int), sep@),
        decreases parts.len() - i,
    {
        if i > 0 {
            r.append(sep);
        }
        r.append(parts[i].as_str());
        proof {
            let views = seq_views(parts@);
            assert(views.subrange(0, i + 1).drop_last() =~= views.subrange(0, i as int));
            assert(views.subrange(0, i + 1).last() == views[i as int]);
        }
        i += 1;
    }
    proof {
        assert(seq_views(parts@).subrange(0, parts@.len() as int) =~= seq_views(parts@));
    }
    r
}

/// Whatever occurs in `mid` still occurs once `mid` is framed by a
/// prefix and a suffix.
pub proof fn lemma_contains_seq_framed(pre: Seq<char>, mid: Seq<char>, post: Seq<char>, needle: Seq<char>)
    requires
        contains_seq(mid, needle),
    ensures
        contains_seq(pre + mid + post, needle),
{
    let k = choose|k: int|
        #![trigger mid.subrange(k, k + needle.len())]
        0 <= k && k + needle.len() <= mid.len() && mid.subrange(k, k + needle.len()) == needle;
    let j = k + pre.len();
    assert((pre + mid + post).subrange(j, j + needle.len()) =~= mid.subrange(k, k + needle.len()));
}

/// Each part occurs contiguously inside the joined result.
pub proof fn lemma_joined_contains_each(parts: Seq<Seq<char>>, sep: Seq<char>, i: int)
    requires
        0 <= i < parts.len(),
    ensures
        contains_seq(spec_joined(parts, sep), parts[i]),
    decreases parts.len(),
{
    let j = spec_joined(parts, sep);
    if parts.len() == 1 {
        assert(j.subrange(0, 0 + parts[i].len() as int) =~= parts[i]);
    } else if i == parts.len() - 1 {
        let pre = spec_joined(parts.drop_last(), sep) + sep;
        let k = pre.len() as int;
        assert(j.subrange(k, k + parts[i].len()) =~= parts[i]);
    } else {
        lemma_joined_contains_each(parts.drop_last(), sep, i);
        assert(parts.drop_last()[i] == parts[i]);
        lemma_contains_seq_framed(
            Seq::empty(),
            spec_joined(parts.drop_last(), sep),
            sep + parts.last(),
            parts[i],
        );
        assert(Seq::empty() + spec_joined(parts.drop_last(), sep) + (sep + parts.last()) =~= j);
    }
}

} // verus!
