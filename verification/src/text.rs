//! Small verified string utilities shared by the argument and command builders.

use vstd::prelude::*;

verus! {

/// A sequence joined from two contains exactly what either part contains.
pub broadcast proof fn lemma_add_contains<A>(a: Seq<A>, b: Seq<A>, x: A)
    ensures
        #[trigger] (a + b).contains(x) <==> (a.contains(x) || b.contains(x)),
{
    if a.contains(x) {
        let i = choose|i: int| 0 <= i < a.len() && a[i] == x;
        assert((a + b)[i] == x);
    }
    if b.contains(x) {
        let j = choose|j: int| 0 <= j < b.len() && b[j] == x;
        assert((a + b)[a.len() + j] == x);
    }
    if (a + b).contains(x) {
        let k = choose|k: int| 0 <= k < (a + b).len() && (a + b)[k] == x;
        if k < a.len() {
            assert(a[k] == x);
        } else {
            assert(b[k - a.len()] == x);
        }
    }
}

/// A sequence of one element contains exactly that element.
pub broadcast proof fn lemma_singleton_contains<A>(y: A, x: A)
    ensures
        #[trigger] seq![y].contains(x) <==> x == y,
{
    if x == y {
        assert(seq![y][0] == x);
    }
}


/// The ASCII character of a single decimal digit.
pub open spec fn digit_char(d: nat) -> char {
    if d == 0 { '0' }
    else if d == 1 { '1' }
    else if d == 2 { '2' }
    else if d == 3 { '3' }
    else if d == 4 { '4' }
    else if d == 5 { '5' }
    else if d == 6 { '6' }
    else if d == 7 { '7' }
    else if d == 8 { '8' }
    else { '9' }
}

/// The decimal representation of a natural number, without leading zeroes
/// (the way `Display` renders unsigned integers).
pub open spec fn decimal(n: nat) -> Seq<char>
    decreases n,
{
    if n < 10 {
        seq![digit_char(n)]
    } else {
        decimal(n / 10).push(digit_char(n % 10))
    }
}

fn digit_str(d: u64) -> (s: &'static str)
    requires
        d < 10,
    ensures
        s@ == seq![digit_char(d as nat)],
{
    proof {
        reveal_strlit("0");
        reveal_strlit("1");
        reveal_strlit("2");
        reveal_strlit("3");
        reveal_strlit("4");
        reveal_strlit("5");
        reveal_strlit("6");
        reveal_strlit("7");
        reveal_strlit("8");
        reveal_strlit("9");
    }
    if d == 0 { "0" }
    else if d == 1 { "1" }
    else if d == 2 { "2" }
    else if d == 3 { "3" }
    else if d == 4 { "4" }
    else if d == 5 { "5" }
    else if d == 6 { "6" }
    else if d == 7 { "7" }
    else if d == 8 { "8" }
    else { "9" }
}

/// Append the decimal representation of `n` to `out`.
pub fn push_decimal(out: &mut String, n: u64)
    ensures
        final(out)@ == old(out)@ + decimal(n as nat),
    decreases n,
{
    if n < 10 {
        out.append(digit_str(n));
    } else {
        push_decimal(out, n / 10);
        out.append(digit_str(n % 10));
        assert(decimal(n as nat) == decimal((n / 10) as nat).push(digit_char((n % 10) as nat)));
    }
}

/// The decimal representation of `n` as an owned string.
pub fn decimal_string(n: u64) -> (s: String)
    ensures
        s@ == decimal(n as nat),
{
    let mut s = String::new();
    push_decimal(&mut s, n);
    assert(s@ == Seq::<char>::empty() + decimal(n as nat));
    s
}

} // verus!

verus! {

/// A lone flag argument, present only when `enabled` holds.
pub open spec fn flag_arg(enabled: bool, name: Seq<char>) -> Seq<Seq<char>> {
    if enabled {
        seq![name]
    } else {
        Seq::empty()
    }
}

/// A flag followed by its value, present only when a value is given.
pub open spec fn option_arg(name: Seq<char>, value: Option<Seq<char>>) -> Seq<Seq<char>> {
    match value {
        Some(v) => seq![name, v],
        None => Seq::empty(),
    }
}

/// The decimal text of an optional number.
pub open spec fn option_decimal(value: Option<u32>) -> Option<Seq<char>> {
    match value {
        Some(v) => Some(decimal(v as nat)),
        None => None,
    }
}

/// `key=value`.
pub open spec fn key_value(pair: (Seq<char>, Seq<char>)) -> Seq<char> {
    pair.0 + seq!['='] + pair.1
}

/// For every pair, the flag followed by `key=value`, in order.
pub open spec fn pair_args(name: Seq<char>, pairs: Seq<(Seq<char>, Seq<char>)>) -> Seq<Seq<char>>
    decreases pairs.len(),
{
    if pairs.len() == 0 {
        Seq::empty()
    } else {
        pair_args(name, pairs.drop_last()) + seq![name, key_value(pairs.last())]
    }
}

/// Push `name` when `enabled` holds.
pub fn push_flag(args: &mut Vec<String>, enabled: bool, name: &str)
    ensures
        final(args).deep_view() == old(args).deep_view() + flag_arg(enabled, name@),
{
    let ghost before = args.deep_view();
    if enabled {
        args.push(name.to_owned());
        assert(args.deep_view() =~= before + flag_arg(enabled, name@));
    } else {
        assert(args.deep_view() =~= before + flag_arg(enabled, name@));
    }
}

/// Push `name` and the given value when there is one.
pub fn push_option(args: &mut Vec<String>, name: &str, value: &Option<String>)
    ensures
        final(args).deep_view() == old(args).deep_view() + option_arg(name@, value.deep_view()),
{
    let ghost before = args.deep_view();
    match value {
        Some(v) => {
            args.push(name.to_owned());
            args.push(v.clone());
            assert(args.deep_view() =~= before + option_arg(name@, value.deep_view()));
        },
        None => {
            assert(args.deep_view() =~= before + option_arg(name@, value.deep_view()));
        },
    }
}

/// Push `name` and the decimal text of the given number when there is one.
pub fn push_option_decimal(args: &mut Vec<String>, name: &str, value: Option<u32>)
    ensures
        final(args).deep_view() == old(args).deep_view() + option_arg(name@, option_decimal(value)),
{
    let ghost before = args.deep_view();
    match value {
        Some(v) => {
            args.push(name.to_owned());
            args.push(decimal_string(v as u64));
            assert(args.deep_view() =~= before + option_arg(name@, option_decimal(value)));
        },
        None => {
            assert(args.deep_view() =~= before + option_arg(name@, option_decimal(value)));
        },
    }
}

/// `key=value` as an owned string.
pub fn key_value_string(key: &String, value: &String) -> (s: String)
    ensures
        s@ == key_value((key@, value@)),
{
    let mut s = key.clone();
    s.append("=");
    proof {
        reveal_strlit("=");
    }
    s.append(value.as_str());
    s
}

/// Push, for every pair in order, `name` followed by `key=value`.
pub fn push_pairs(args: &mut Vec<String>, name: &str, pairs: &Vec<(String, String)>)
    ensures
        final(args).deep_view() == old(args).deep_view() + pair_args(name@, pairs.deep_view()),
{
    let ghost before = args.deep_view();
    let ghost all = pairs.deep_view();
    let mut i: usize = 0;
    assert(all.take(0) =~= Seq::<(Seq<char>, Seq<char>)>::empty());
    assert(before + pair_args(name@, all.take(0)) =~= before);
    while i < pairs.len()
        invariant
            i <= pairs.len(),
            all == pairs.deep_view(),
            args.deep_view() == before + pair_args(name@, all.take(i as int)),
        decreases pairs.len() - i,
    {
        let ghost prev = args.deep_view();
        let pair = &pairs[i];
        args.push(name.to_owned());
        args.push(key_value_string(&pair.0, &pair.1));
        assert(all.take(i + 1).drop_last() =~= all.take(i as int));
        assert(all.take(i + 1).last() == all[i as int]);
        assert(all[i as int] == (pair.0@, pair.1@));
        assert(args.deep_view() =~= prev + seq![name@, key_value(all[i as int])]);
        i += 1;
    }
    assert(all.take(pairs.len() as int) =~= all);
}

} // verus!

verus! {

/// The string with every non-overlapping match of a non-empty pattern, taken from left to right,
/// replaced by `to`; with an empty pattern, `to` is put before every character and at the end.
pub open spec fn replace_all(s: Seq<char>, from: Seq<char>, to: Seq<char>) -> Seq<char>
    decreases s.len(),
{
    if from.len() == 0 {
        interleave(s, to)
    } else if s.len() < from.len() {
        s
    } else if s.subrange(0, from.len() as int) == from {
        to + replace_all(s.skip(from.len() as int), from, to)
    } else {
        seq![s[0]] + replace_all(s.skip(1), from, to)
    }
}

/// `to` before every character of `s` and once more at the end.
pub open spec fn interleave(s: Seq<char>, to: Seq<char>) -> Seq<char>
    decreases s.len(),
{
    if s.len() == 0 {
        to
    } else {
        to + seq![s[0]] + interleave(s.skip(1), to)
    }
}

/// Whether `pattern` occurs in `s` at character position `at`.
pub open spec fn occurs_at(s: Seq<char>, at: int, pattern: Seq<char>) -> bool {
    at + pattern.len() <= s.len() && s.subrange(at, at + pattern.len()) == pattern
}

/// Whether `pattern` occurs in `s` at character position `at`.
pub fn matches_at(s: &str, s_len: usize, at: usize, pattern: &str, pattern_len: usize) -> (r: bool)
    requires
        s_len == s@.len(),
        pattern_len == pattern@.len(),
        at <= s_len,
    ensures
        r == occurs_at(s@, at as int, pattern@),
{
    if s_len - at < pattern_len {
        return false;
    }
    let mut j: usize = 0;
    while j < pattern_len
        invariant
            s_len == s@.len(),
            pattern_len == pattern@.len(),
            at + pattern_len <= s_len,
            j <= pattern_len,
            forall|k: int| 0 <= k < j ==> s@[at + k] == pattern@[k],
        decreases pattern_len - j,
    {
        if s.get_char(at + j) != pattern.get_char(j) {
            assert(s@.subrange(at as int, at + pattern_len)[j as int] != pattern@[j as int]);
            return false;
        }
        j += 1;
    }
    assert(s@.subrange(at as int, at + pattern_len) =~= pattern@);
    true
}

proof fn lemma_replace_step(s: Seq<char>, i: int, from: Seq<char>, to: Seq<char>)
    requires
        from.len() > 0,
        0 <= i < s.len(),
    ensures
        replace_all(s.skip(i), from, to) == if occurs_at(s, i, from) {
            to + replace_all(s.skip(i + from.len()), from, to)
        } else if s.len() - i < from.len() {
            s.skip(i)
        } else {
            seq![s[i]] + replace_all(s.skip(i + 1), from, to)
        },
{
    let t = s.skip(i);
    assert(t.len() == s.len() - i);
    if t.len() >= from.len() {
        assert(t.subrange(0, from.len() as int) =~= s.subrange(i, i + from.len()));
        assert(t.skip(from.len() as int) =~= s.skip(i + from.len()));
    }
    assert(t.skip(1) =~= s.skip(i + 1));
}

/// `s` with every match of `from` replaced by `to`, as `str::replace` does.
pub fn replace(s: &str, from: &str, to: &str) -> (r: String)
    ensures
        r@ == replace_all(s@, from@, to@),
{
    let n = s.unicode_len();
    let m = from.unicode_len();
    let mut r = String::new();
    let mut i: usize = 0;
    if m == 0 {
        assert(s@.skip(0) =~= s@);
        assert(interleave(s@, to@) =~= r@ + interleave(s@.skip(0), to@));
        while i < n
            invariant
                n == s@.len(),
                from@.len() == 0,
                i <= n,
                interleave(s@, to@) == r@ + interleave(s@.skip(i as int), to@),
            decreases n - i,
        {
            let ghost prev = r@;
            r.append(to);
            r.append(s.substring_char(i, i + 1));
            assert(s@.skip(i as int).skip(1) =~= s@.skip(i + 1));
            assert(s@.subrange(i as int, i + 1) =~= seq![s@.skip(i as int)[0]]);
            assert(prev + interleave(s@.skip(i as int), to@) =~= r@ + interleave(s@.skip(i + 1), to@));
            i += 1;
        }
        r.append(to);
        assert(s@.skip(n as int) =~= Seq::<char>::empty());
        assert(Seq::<char>::empty() + interleave(s@, to@) =~= interleave(s@, to@));
        return r;
    }
    assert(s@.skip(0) =~= s@);
    assert(replace_all(s@, from@, to@) =~= r@ + replace_all(s@.skip(0), from@, to@));
    while i < n
        invariant
            n == s@.len(),
            m == from@.len(),
            m > 0,
            i <= n,
            replace_all(s@, from@, to@) == r@ + replace_all(s@.skip(i as int), from@, to@),
        decreases n - i,
    {
        let ghost prev = r@;
        proof {
            lemma_replace_step(s@, i as int, from@, to@);
        }
        if matches_at(s, n, i, from, m) {
            r.append(to);
            assert(prev + (to@ + replace_all(s@.skip(i + m), from@, to@)) =~= r@ + replace_all(s@.skip(i + m), from@, to@));
            i += m;
        } else if n - i < m {
            r.append(s.substring_char(i, n));
            assert(s@.subrange(i as int, n as int) =~= s@.skip(i as int));
            assert(s@.skip(n as int) =~= Seq::<char>::empty());
            assert(replace_all(Seq::<char>::empty(), from@, to@) == Seq::<char>::empty());
            assert(r@ + replace_all(s@.skip(n as int), from@, to@) =~= prev + s@.skip(i as int));
            i = n;
        } else {
            r.append(s.substring_char(i, i + 1));
            assert(s@.subrange(i as int, i + 1) =~= seq![s@[i as int]]);
            assert(prev + (seq![s@[i as int]] + replace_all(s@.skip(i + 1), from@, to@)) =~= r@ + replace_all(s@.skip(i + 1), from@, to@));
            i += 1;
        }
    }
    assert(s@.skip(n as int) =~= Seq::<char>::empty());
    assert(replace_all(Seq::<char>::empty(), from@, to@) == Seq::<char>::empty());
    assert(r@ + Seq::<char>::empty() =~= r@);
    r
}

} // verus!

verus! {

/// The parts joined with single spaces between them, as `join(" ")` renders them.
pub open spec fn join_spaced(parts: Seq<Seq<char>>) -> Seq<char>
    decreases parts.len(),
{
    if parts.len() == 0 {
        Seq::empty()
    } else if parts.len() == 1 {
        parts[0]
    } else {
        join_spaced(parts.drop_last()) + seq![' '] + parts.last()
    }
}

/// The parts joined with single spaces between them.
pub fn join_spaced_string(parts: &Vec<String>) -> (r: String)
    ensures
        r@ == join_spaced(parts.deep_view()),
{
    let ghost all = parts.deep_view();
    let mut r = String::new();
    let mut i: usize = 0;
    while i < parts.len()
        invariant
            i <= parts.len(),
            all == parts.deep_view(),
            r@ == join_spaced(all.take(i as int)),
        decreases parts.len() - i,
    {
        if i > 0 {
            proof {
                reveal_strlit(" ");
            }
            r.append(" ");
        }
        r.append(parts[i].as_str());
        assert(all.take(i + 1).drop_last() =~= all.take(i as int));
        assert(all.take(i + 1).last() == all[i as int]);
        assert(r@ =~= join_spaced(all.take(i + 1)));
        i += 1;
    }
    assert(all.take(parts.len() as int) =~= all);
    r
}

/// The pieces of a text between its spaces, as splitting on `' '` yields them: one more piece than
/// there are spaces, empty pieces included.
pub open spec fn split_spaces(s: Seq<char>) -> Seq<Seq<char>>
    decreases s.len(),
{
    if s.len() == 0 {
        seq![Seq::empty()]
    } else {
        let init = split_spaces(s.drop_last());
        if s.last() == ' ' {
            init.push(Seq::empty())
        } else {
            init.update(init.len() - 1, init.last().push(s.last()))
        }
    }
}

proof fn lemma_split_spaces_nonempty(s: Seq<char>)
    ensures
        split_spaces(s).len() >= 1,
    decreases s.len(),
{
    if s.len() > 0 {
        lemma_split_spaces_nonempty(s.drop_last());
    }
}

/// Joining the pieces between the spaces of a text with spaces gives the text back, and no piece
/// holds a space.
pub proof fn lemma_split_spaces_join(s: Seq<char>)
    ensures
        join_spaced(split_spaces(s)) == s,
        forall|i: int, j: int| 0 <= i < split_spaces(s).len() && 0 <= j < split_spaces(s)[i].len()
            ==> #[trigger] split_spaces(s)[i][j] != ' ',
    decreases s.len(),
{
    if s.len() > 0 {
        let t = s.drop_last();
        lemma_split_spaces_join(t);
        lemma_split_spaces_nonempty(t);
        let init = split_spaces(t);
        if s.last() == ' ' {
            let p = init.push(Seq::<char>::empty());
            assert(p.drop_last() =~= init);
            assert(join_spaced(p) =~= t + seq![' ']);
            assert(t + seq![' '] =~= s);
        } else {
            let p = init.update(init.len() - 1, init.last().push(s.last()));
            assert(p.drop_last() =~= init.drop_last());
            if init.len() == 1 {
                assert(join_spaced(init) == init[0]);
                assert(join_spaced(p) =~= t.push(s.last()));
            } else {
                assert(join_spaced(p) =~= join_spaced(init.drop_last()) + seq![' '] + init.last().push(s.last()));
                assert(join_spaced(p) =~= join_spaced(init).push(s.last()));
            }
            assert(t.push(s.last()) =~= s);
            assert forall|i: int, j: int| 0 <= i < p.len() && 0 <= j < p[i].len() implies #[trigger] p[i][j] != ' ' by {
                if i == p.len() - 1 && j == p[i].len() - 1 {
                    assert(p[i][j] == s.last());
                } else if i == p.len() - 1 {
                    assert(p[i][j] == init[i][j]);
                }
            }
        }
    }
}

/// The pieces of a text between its spaces.
pub fn split_spaces_vec(s: &str) -> (r: Vec<String>)
    ensures
        r.deep_view() == split_spaces(s@),
{
    let n = s.unicode_len();
    let mut pieces: Vec<String> = Vec::new();
    let mut current = String::new();
    let mut i: usize = 0;
    assert(s@.take(0) =~= Seq::<char>::empty());
    assert(pieces.deep_view().push(current@) =~= split_spaces(s@.take(0)));
    while i < n
        invariant
            i <= n,
            n == s@.len(),
            pieces.deep_view().push(current@) == split_spaces(s@.take(i as int)),
        decreases n - i,
    {
        let c = s.get_char(i);
        let ghost prev_pieces = pieces.deep_view();
        let ghost prev_current = current@;
        assert(s@.take(i + 1).drop_last() =~= s@.take(i as int));
        assert(s@.take(i + 1).last() == c);
        if c == ' ' {
            pieces.push(current);
            current = String::new();
            assert(pieces.deep_view() =~= prev_pieces.push(prev_current));
            assert(pieces.deep_view().push(current@) =~= split_spaces(s@.take(i + 1)));
        } else {
            let one = s.substring_char(i, i + 1);
            assert(one@ =~= seq![c]);
            current.append(one);
            assert(current@ =~= prev_current.push(c));
            assert(pieces.deep_view().push(current@) =~= prev_pieces.push(prev_current).update(
                prev_pieces.len() as int,
                prev_current.push(c),
            ));
        }
        i += 1;
    }
    assert(s@.take(n as int) =~= s@);
    pieces.push(current);
    pieces
}

} // verus!
