use vstd::prelude::*;

use crate::text::{decimal, digit_char, push_char, push_decimal};

verus! {

/// The kinds of points of interest on the bundled world map.
#[derive(Clone, Copy, Debug, PartialEq, Eq, Structural)]
pub enum LocationKind {
    Gas,
    Workshop,
    ConvenienceStore,
}

/// The kind that a world-map row names by its code: 1 for a gas station, 2 for
/// a workshop, 3 for a convenience store; rows with another code are not
/// points of interest.
pub open spec fn kind_of_code(code: Seq<char>) -> Option<LocationKind> {
    if code == seq!['1'] {
        Some(LocationKind::Gas)
    } else if code == seq!['2'] {
        Some(LocationKind::Workshop)
    } else if code == seq!['3'] {
        Some(LocationKind::ConvenienceStore)
    } else {
        None
    }
}

/// Reads the kind code of a world-map row.
pub fn location_kind(code: &str) -> (kind: Option<LocationKind>)
    ensures
        kind == kind_of_code(code@),
{
    if code.unicode_len() != 1 {
        return None;
    }
    let c = code.get_char(0);
    proof {
        assert(code@ == seq![c]);
    }
    if c == '1' {
        Some(LocationKind::Gas)
    } else if c == '2' {
        Some(LocationKind::Workshop)
    } else if c == '3' {
        Some(LocationKind::ConvenienceStore)
    } else {
        None
    }
}

/// The word that names the locations of a kind.
pub open spec fn kind_label(kind: LocationKind) -> Seq<char> {
    match kind {
        LocationKind::Gas => "Gas station"@,
        LocationKind::Workshop => "Workshop"@,
        LocationKind::ConvenienceStore => "Konbini"@,
    }
}

/// How many of `kinds` are `kind`.
pub open spec fn count_of(kinds: Seq<LocationKind>, kind: LocationKind) -> nat
    decreases kinds.len(),
{
    if kinds.len() == 0 {
        0
    } else {
        count_of(kinds.drop_last(), kind) + if kinds.last() == kind {
            1nat
        } else {
            0nat
        }
    }
}

/// The name of location `i` of a map whose locations have `kinds`, in order:
/// the kind's word and the location's number among those of its kind,
/// counted from 1.
pub open spec fn location_name(kinds: Seq<LocationKind>, i: int) -> Seq<char> {
    kind_label(kinds[i]) + seq![' '] + decimal(count_of(kinds.subrange(0, i + 1), kinds[i]))
}

fn label(kind: LocationKind) -> (label: String)
    ensures
        label@ == kind_label(kind),
{
    match kind {
        LocationKind::Gas => "Gas station".to_owned(),
        LocationKind::Workshop => "Workshop".to_owned(),
        LocationKind::ConvenienceStore => "Konbini".to_owned(),
    }
}

/// Names the locations of a map whose locations have `kinds`, in order.
pub fn location_names(kinds: &Vec<LocationKind>) -> (names: Vec<String>)
    ensures
        names.len() == kinds.len(),
        forall|i: int| 0 <= i < kinds.len() ==> (#[trigger] names[i])@ == location_name(kinds@, i),
{
    let mut names: Vec<String> = Vec::new();
    let mut gas: u64 = 0;
    let mut workshops: u64 = 0;
    let mut stores: u64 = 0;
    let mut i: usize = 0;
    while i < kinds.len()
        invariant
            i <= kinds.len(),
            names.len() == i,
            gas == count_of(kinds@.subrange(0, i as int), LocationKind::Gas),
            workshops == count_of(kinds@.subrange(0, i as int), LocationKind::Workshop),
            stores == count_of(kinds@.subrange(0, i as int), LocationKind::ConvenienceStore),
            gas + workshops + stores == i,
            forall|j: int| 0 <= j < i ==> (#[trigger] names[j])@ == location_name(kinds@, j),
        decreases kinds.len() - i,
    {
        let kind = kinds[i];
        let ghost next = kinds@.subrange(0, i + 1);
        assert(next.drop_last() == kinds@.subrange(0, i as int));
        assert(next.last() == kind);
        proof {
            lemma_counts_sum(kinds@.subrange(0, i as int));
        }
        let number = match kind {
            LocationKind::Gas => {
                gas = gas + 1;
                gas
            },
            LocationKind::Workshop => {
                workshops = workshops + 1;
                workshops
            },
            LocationKind::ConvenienceStore => {
                stores = stores + 1;
                stores
            },
        };
        let mut name = label(kind);
        push_char(&mut name, ' ');
        push_decimal(&mut name, number);
        names.push(name);
        i = i + 1;
    }
    names
}

proof fn lemma_counts_sum(kinds: Seq<LocationKind>)
    ensures
        count_of(kinds, LocationKind::Gas) + count_of(kinds, LocationKind::Workshop) + count_of(
            kinds,
            LocationKind::ConvenienceStore,
        ) == kinds.len(),
    decreases kinds.len(),
{
    if kinds.len() > 0 {
        lemma_counts_sum(kinds.drop_last());
    }
}

} // verus!

verus! {

proof fn lemma_decimal_len(n: nat)
    ensures
        decimal(n).len() >= 1,
        n >= 10 ==> decimal(n).len() >= 2,
    decreases n,
{
    if n >= 10 {
        lemma_decimal_len(n / 10);
    }
}

proof fn lemma_decimal_injective(a: nat, b: nat)
    requires
        decimal(a) == decimal(b),
    ensures
        a == b,
    decreases a,
{
    lemma_decimal_len(a);
    lemma_decimal_len(b);
    if a < 10 && b < 10 {
        assert(decimal(a)[0] == digit_char(a));
        assert(decimal(b)[0] == digit_char(b));
    } else if a >= 10 && b >= 10 {
        assert(decimal(a).last() == digit_char(a % 10));
        assert(decimal(b).last() == digit_char(b % 10));
        assert(decimal(a).drop_last() == decimal(a / 10));
        assert(decimal(b).drop_last() == decimal(b / 10));
        lemma_decimal_injective(a / 10, b / 10);
    }
}

proof fn lemma_count_grows(kinds: Seq<LocationKind>, i: int, j: int)
    requires
        0 <= i < j < kinds.len(),
        kinds[i] == kinds[j],
    ensures
        count_of(kinds.subrange(0, i + 1), kinds[i]) < count_of(kinds.subrange(0, j + 1), kinds[j]),
    decreases j - i,
{
    assert(kinds.subrange(0, j + 1).drop_last() == kinds.subrange(0, j));
    if j > i + 1 {
        lemma_count_not_shrinking(kinds, i + 1, j);
    }
}

proof fn lemma_count_not_shrinking(kinds: Seq<LocationKind>, i: int, j: int)
    requires
        0 <= i <= j <= kinds.len(),
    ensures
        forall|k: LocationKind| count_of(kinds.subrange(0, i), k) <= count_of(kinds.subrange(0, j), k),
    decreases j - i,
{
    if i < j {
        lemma_count_not_shrinking(kinds, i, j - 1);
        assert(kinds.subrange(0, j).drop_last() == kinds.subrange(0, j - 1));
    }
}

/// Every location of the map gets a name of its own: locations of one kind are
/// numbered 1, 2, 3, ... in map order, and the kinds' words differ.
pub proof fn lemma_location_names_are_distinct(kinds: Seq<LocationKind>, i: int, j: int)
    requires
        0 <= i < j < kinds.len(),
    ensures
        location_name(kinds, i) != location_name(kinds, j),
{
    let a = location_name(kinds, i);
    let b = location_name(kinds, j);
    reveal_strlit("Gas station");
    reveal_strlit("Workshop");
    reveal_strlit("Konbini");
    if kinds[i] != kinds[j] {
        assert(a[0] == kind_label(kinds[i])[0]);
        assert(b[0] == kind_label(kinds[j])[0]);
    } else {
        lemma_count_grows(kinds, i, j);
        let prefix = kind_label(kinds[i]) + seq![' '];
        let n = count_of(kinds.subrange(0, i + 1), kinds[i]);
        let m = count_of(kinds.subrange(0, j + 1), kinds[j]);
        if a == b {
            assert(a.subrange(prefix.len() as int, a.len() as int) == decimal(n));
            assert(b.subrange(prefix.len() as int, b.len() as int) == decimal(m));
            lemma_decimal_injective(n, m);
        }
    }
}

} // verus!
