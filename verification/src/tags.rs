//! The tags of an entry: an ordered list of (name, value) pairs in which
//! each name occurs at most once.
use vstd::prelude::*;

use crate::text::str_eq;

verus! {

/// The tags as pairs of character sequences.
pub open spec fn tag_view(tags: Seq<(String, String)>) -> Seq<(Seq<char>, Seq<char>)> {
    tags.map_values(|t: (String, String)| (t.0@, t.1@))
}

/// No tag name occurs twice.
pub open spec fn distinct_keys(tags: Seq<(Seq<char>, Seq<char>)>) -> bool {
    forall|i: int, j: int| 0 <= i < j < tags.len() ==> tags[i].0 != tags[j].0
}

/// The value of the first tag named `key`.
pub open spec fn lookup(tags: Seq<(Seq<char>, Seq<char>)>, key: Seq<char>) -> Option<Seq<char>>
    decreases tags.len(),
{
    if tags.len() == 0 {
        None
    } else if tags[0].0 == key {
        Some(tags[0].1)
    } else {
        lookup(tags.drop_first(), key)
    }
}

/// The tags with `key` set to `value`: the first tag of that name gets the
/// new value in place, or, when there is none, the tag is appended.
pub open spec fn set_tag(tags: Seq<(Seq<char>, Seq<char>)>, key: Seq<char>, value: Seq<char>) -> Seq<
    (Seq<char>, Seq<char>),
>
    decreases tags.len(),
{
    if tags.len() == 0 {
        seq![(key, value)]
    } else if tags[0].0 == key {
        tags.update(0, (key, value))
    } else {
        seq![tags[0]] + set_tag(tags.drop_first(), key, value)
    }
}

/// The tags as a map from names to values.
pub open spec fn tag_map(tags: Seq<(Seq<char>, Seq<char>)>) -> Map<Seq<char>, Seq<char>> {
    Map::new(|k: Seq<char>| lookup(tags, k) is Some, |k: Seq<char>| lookup(tags, k)->0)
}

/// With no earlier tag of that name, the tag at index `i` named `key` is the
/// one that lookup finds and that setting replaces.
pub proof fn lemma_tag_at(tags: Seq<(Seq<char>, Seq<char>)>, key: Seq<char>, i: int, value: Seq<char>)
    requires
        0 <= i < tags.len(),
        tags[i].0 == key,
        forall|j: int| 0 <= j < i ==> tags[j].0 != key,
    ensures
        lookup(tags, key) == Some(tags[i].1),
        set_tag(tags, key, value) == tags.update(i, (key, value)),
    decreases i,
{
    if i > 0 {
        let rest = tags.drop_first();
        assert forall|j: int| 0 <= j < i - 1 implies rest[j].0 != key by {
            assert(rest[j] == tags[j + 1]);
        }
        lemma_tag_at(rest, key, i - 1, value);
        assert(seq![tags[0]] + rest.update(i - 1, (key, value)) =~= tags.update(i, (key, value)));
    }
}

/// A name that no tag has: lookup finds nothing and setting appends.
pub proof fn lemma_tag_absent(tags: Seq<(Seq<char>, Seq<char>)>, key: Seq<char>, value: Seq<char>)
    requires
        forall|j: int| 0 <= j < tags.len() ==> tags[j].0 != key,
    ensures
        lookup(tags, key) is None,
        set_tag(tags, key, value) == tags.push((key, value)),
    decreases tags.len(),
{
    if tags.len() > 0 {
        let rest = tags.drop_first();
        assert forall|j: int| 0 <= j < rest.len() implies rest[j].0 != key by {
            assert(rest[j] == tags[j + 1]);
        }
        lemma_tag_absent(rest, key, value);
        assert(seq![tags[0]] + rest.push((key, value)) =~= tags.push((key, value)));
    }
}

/// The index of the first tag named `key`.
pub fn find_index(tags: &Vec<(String, String)>, key: &str) -> (res: Option<usize>)
    ensures
        match res {
            Some(i) => i < tags.len() && tags@[i as int].0@ == key@ && forall|j: int|
                0 <= j < i ==> tags@[j].0@ != key@,
            None => forall|j: int| 0 <= j < tags.len() ==> tags@[j].0@ != key@,
        },
{
    let mut i: usize = 0;
    while i < tags.len()
        invariant
            i <= tags.len(),
            forall|j: int| 0 <= j < i ==> tags@[j].0@ != key@,
        decreases tags.len() - i,
    {
        if str_eq(tags[i].0.as_str(), key) {
            return Some(i);
        }
        i = i + 1;
    }
    None
}

/// The value of the first tag named `key`, found in `tags`.
pub proof fn lemma_find_index_lookup(tags: Seq<(String, String)>, key: Seq<char>, res: Option<usize>)
    requires
        match res {
            Some(i) => i < tags.len() && tags[i as int].0@ == key && forall|j: int|
                0 <= j < i ==> tags[j].0@ != key,
            None => forall|j: int| 0 <= j < tags.len() ==> tags[j].0@ != key,
        },
    ensures
        match res {
            Some(i) => lookup(tag_view(tags), key) == Some(tags[i as int].1@),
            None => lookup(tag_view(tags), key) is None,
        },
{
    let tv = tag_view(tags);
    match res {
        Some(i) => {
            lemma_tag_at(tv, key, i as int, seq![]);
        },
        None => {
            lemma_tag_absent(tv, key, seq![]);
        },
    }
}

/// After setting a tag, looking it up gives the new value, and every other
/// tag keeps its value.
pub proof fn lemma_set_then_lookup(
    tags: Seq<(Seq<char>, Seq<char>)>,
    key: Seq<char>,
    value: Seq<char>,
    other: Seq<char>,
)
    ensures
        lookup(set_tag(tags, key, value), key) == Some(value),
        other != key ==> lookup(set_tag(tags, key, value), other) == lookup(tags, other),
    decreases tags.len(),
{
    if tags.len() > 0 && tags[0].0 != key {
        lemma_set_then_lookup(tags.drop_first(), key, value, other);
        let s = seq![tags[0]] + set_tag(tags.drop_first(), key, value);
        assert(s.drop_first() =~= set_tag(tags.drop_first(), key, value));
        assert(s[0] == tags[0]);
    } else if tags.len() > 0 {
        assert(tags.update(0, (key, value)).drop_first() =~= tags.drop_first());
    } else {
        assert(seq![(key, value)].drop_first() =~= tags);
    }
}

/// Setting a tag keeps every name at most once.
pub proof fn lemma_set_keeps_distinct(
    tags: Seq<(Seq<char>, Seq<char>)>,
    key: Seq<char>,
    value: Seq<char>,
)
    requires
        distinct_keys(tags),
    ensures
        distinct_keys(set_tag(tags, key, value)),
{
    if exists|i: int| 0 <= i < tags.len() && tags[i].0 == key {
        let i = choose|i: int| 0 <= i < tags.len() && tags[i].0 == key;
        assert forall|j: int| 0 <= j < i implies tags[j].0 != key by {}
        lemma_tag_at(tags, key, i, value);
    } else {
        lemma_tag_absent(tags, key, value);
    }
}

} // verus!
