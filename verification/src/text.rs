use vstd::prelude::*;

verus! {

/// `String::push`: appends one character.
#[verifier::external_body]
pub(crate) fn push_char(text: &mut String, c: char)
    ensures
        final(text)@ == old(text)@.push(c),
{
    text.push(c);
}

/// `String::pop`: removes the last character, if there is one.
#[verifier::external_body]
pub(crate) fn pop_char(text: &mut String) -> (last: Option<char>)
    ensures
        old(text)@.len() == 0 ==> last is None && final(text)@ == old(text)@,
        old(text)@.len() > 0 ==> last == Some(old(text)@.last()) && final(text)@ == old(
            text,
        )@.drop_last(),
{
    text.pop()
}

/// Whether `text` holds the character `c`.
pub(crate) fn contains_char(text: &str, c: char) -> (found: bool)
    ensures
        found == text@.contains(c),
{
    let n = text.unicode_len();
    let mut i: usize = 0;
    while i < n
        invariant
            n == text@.len(),
            i <= n,
            forall|j: int| 0 <= j < i ==> text@[j] != c,
        decreases n - i,
    {
        if text.get_char(i) == c {
            assert(text@[i as int] == c);
            return true;
        }
        i = i + 1;
    }
    false
}

/// The components of a path as `Path::components` documents them: a leading
/// `/` is the root, repeated separators are ignored, and `.` is dropped except
/// at the start of a relative path.
pub open spec fn path_components(path: Seq<char>) -> Seq<Seq<char>> {
    let rooted = path.len() > 0 && path[0] == '/';
    let here = !rooted && path.len() > 0 && path[0] == '.' && (path.len() == 1 || path[1] == '/');
    (if rooted {
        seq![seq!['/']]
    } else {
        Seq::empty()
    }) + (if here {
        seq![seq!['.']]
    } else {
        Seq::empty()
    }) + segments(path, '/').filter(|part: Seq<char>| part.len() > 0 && part != seq!['.'])
}

/// Whether the path `path` begins with the path `base`, as `Path::starts_with`
/// decides it: the components of `base` are the first components of `path`.
pub open spec fn path_has_prefix(path: Seq<char>, base: Seq<char>) -> bool {
    path_components(base).is_prefix_of(path_components(path))
}

/// `Path::starts_with` on two paths given as text: whole components, as
/// `path_has_prefix` states.
#[verifier::external_body]
pub(crate) fn path_starts_with(path: &str, base: &str) -> (prefixed: bool)
    ensures
        prefixed == path_has_prefix(path@, base@),
{
    std::path::Path::new(path).starts_with(base)
}

/// The decimal digit character for `d`.
pub open spec fn digit_char(d: nat) -> char {
    (0x30 + d) as char
}

/// The decimal representation of `n`, without leading zeros.
pub open spec fn decimal(n: nat) -> Seq<char>
    decreases n,
{
    if n < 10 {
        seq![digit_char(n)]
    } else {
        decimal(n / 10).push(digit_char(n % 10))
    }
}

pub(crate) fn char_from_digit(d: u32) -> (c: char)
    requires
        d < 10,
    ensures
        c == digit_char(d as nat),
{
    match d {
        0 => '0',
        1 => '1',
        2 => '2',
        3 => '3',
        4 => '4',
        5 => '5',
        6 => '6',
        7 => '7',
        8 => '8',
        _ => '9',
    }
}

/// Appends the decimal representation of `n` to `text`.
pub(crate) fn push_decimal(text: &mut String, n: u64)
    ensures
        final(text)@ == old(text)@ + decimal(n as nat),
{
    let ghost start = text@;
    let mut digits: Vec<char> = Vec::new();
    let mut m: u64 = n;
    while m >= 10
        invariant
            decimal(n as nat) == decimal(m as nat) + digits@,
        decreases m,
    {
        let ghost before = digits@;
        digits.insert(0, char_from_digit((m % 10) as u32));
        assert(decimal(m as nat) == decimal((m / 10) as nat).push(digit_char((m % 10) as nat)));
        assert(digits@ == seq![digit_char((m % 10) as nat)] + before);
        assert(decimal((m / 10) as nat) + digits@ == decimal(m as nat) + before);
        m = m / 10;
    }
    push_char(text, char_from_digit(m as u32));
    assert(decimal(m as nat) == seq![digit_char(m as nat)]);
    let mut k: usize = 0;
    while k < digits.len()
        invariant
            k <= digits@.len(),
            decimal(n as nat) == decimal(m as nat) + digits@,
            decimal(m as nat) == seq![digit_char(m as nat)],
            text@ == start + decimal(m as nat) + digits@.subrange(0, k as int),
        decreases digits@.len() - k,
    {
        push_char(text, digits[k]);
        assert(digits@.subrange(0, k + 1) == digits@.subrange(0, k as int).push(digits@[k as int]));
        k = k + 1;
    }
    assert(digits@.subrange(0, digits@.len() as int) == digits@);
}

/// The decimal representation of `n`.
pub fn decimal_string(n: u64) -> (text: String)
    ensures
        text@ == decimal(n as nat),
{
    let mut text = String::new();
    push_decimal(&mut text, n);
    text
}

/// The parts of `line` between separators `sep`, in order: the text before the
/// first separator, between each two, and after the last one.
pub open spec fn segments(line: Seq<char>, sep: char) -> Seq<Seq<char>>
    decreases line.len(),
{
    if line.len() == 0 {
        seq![Seq::empty()]
    } else {
        let before = segments(line.drop_last(), sep);
        if line.last() == sep {
            before.push(Seq::empty())
        } else {
            before.update(before.len() - 1, before.last().push(line.last()))
        }
    }
}

/// The fields of a comma-separated line, in order.
pub open spec fn fields(line: Seq<char>) -> Seq<Seq<char>> {
    segments(line, ',')
}

/// The fields joined again, with a comma between each two.
pub open spec fn joined(parts: Seq<Seq<char>>) -> Seq<char>
    decreases parts.len(),
{
    if parts.len() == 0 {
        Seq::empty()
    } else if parts.len() == 1 {
        parts[0]
    } else {
        joined(parts.drop_last()) + seq![','] + parts.last()
    }
}

proof fn lemma_fields_not_empty(line: Seq<char>)
    ensures
        fields(line).len() >= 1,
    decreases line.len(),
{
    if line.len() > 0 {
        lemma_fields_not_empty(line.drop_last());
    }
}

/// Splits `line` at every comma.
pub fn split_fields(line: &str) -> (parts: Vec<String>)
    ensures
        parts@.map_values(|part: String| part@) == fields(line@),
{
    let n = line.unicode_len();
    let mut parts: Vec<String> = Vec::new();
    let mut current = String::new();
    let mut i: usize = 0;
    assert(line@.subrange(0, 0) == Seq::<char>::empty());
    assert(parts@.map_values(|part: String| part@).push(current@) == fields(line@.subrange(0, 0)));
    while i < n
        invariant
            n == line@.len(),
            i <= n,
            parts@.map_values(|part: String| part@).push(current@) == fields(
                line@.subrange(0, i as int),
            ),
        decreases n - i,
    {
        let c = line.get_char(i);
        let ghost prefix = line@.subrange(0, i as int);
        let ghost done = parts@.map_values(|part: String| part@);
        assert(line@.subrange(0, i + 1).drop_last() == prefix);
        assert(line@.subrange(0, i + 1).last() == c);
        proof {
            lemma_fields_not_empty(prefix);
        }
        if c == ',' {
            parts.push(current);
            current = String::new();
            assert(parts@.map_values(|part: String| part@) == done.push(fields(prefix).last()));
        } else {
            push_char(&mut current, c);
            assert(done.push(current@) == fields(prefix).update(
                fields(prefix).len() - 1,
                fields(prefix).last().push(c),
            ));
        }
        i = i + 1;
    }
    assert(line@.subrange(0, n as int) == line@);
    let ghost done = parts@.map_values(|part: String| part@);
    parts.push(current);
    assert(parts@.map_values(|part: String| part@) == done.push(current@));
    parts
}

/// Joining the fields of a line with commas gives the line back, and no field
/// holds a comma.
pub proof fn lemma_fields_join_back(line: Seq<char>)
    ensures
        joined(fields(line)) == line,
        forall|i: int| 0 <= i < fields(line).len() ==> !(#[trigger] fields(line)[i]).contains(','),
    decreases line.len(),
{
    lemma_fields_not_empty(line);
    if line.len() > 0 {
        let before = fields(line.drop_last());
        lemma_fields_join_back(line.drop_last());
        lemma_fields_not_empty(line.drop_last());
        if line.last() == ',' {
            assert(fields(line).drop_last() == before);
            assert(line == line.drop_last() + seq![','] + Seq::<char>::empty());
        } else {
            let k = before.len() - 1;
            let after = fields(line);
            assert(after.len() == before.len());
            if before.len() == 1 {
                assert(line == before[0].push(line.last()));
            } else {
                assert(after.drop_last() == before.drop_last());
                assert(joined(before) == joined(before.drop_last()) + seq![','] + before.last());
                let head = joined(before.drop_last()) + seq![','];
                assert(line == line.drop_last().push(line.last()));
                assert(line.drop_last() == head + before.last());
                assert((head + before.last()).push(line.last()) == head + before.last().push(
                    line.last(),
                ));
            }
            assert forall|i: int| 0 <= i < after.len() implies !(#[trigger] after[i]).contains(',') by {
                if i == k {
                    assert(!before[k].contains(','));
                    if after[i].contains(',') {
                        let j = choose|j: int| 0 <= j < after[i].len() && after[i][j] == ',';
                        if j < before[k].len() {
                            assert(before[k][j] == ',');
                        }
                    }
                } else {
                    assert(after[i] == before[i]);
                }
            }
        }
    }
}

} // verus!
