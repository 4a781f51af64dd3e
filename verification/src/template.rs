//! What a template is rendered from: its key, and the texts that its placeholders stand for.

use vstd::prelude::*;

verus! {

/// The texts that a template may name, each under one key.
#[derive(Debug)]
pub struct TemplateData {
    entries: Vec<(String, String)>,
}

/// No two entries have the same key.
pub open spec fn keys_are_distinct(entries: Seq<(Seq<char>, Seq<char>)>) -> bool {
    forall|i: int, j: int|
        0 <= i < j < entries.len() ==> (#[trigger] entries[i]).0 != (#[trigger] entries[j]).0
}

/// Whether some entry has the key.
pub open spec fn has_key(entries: Seq<(Seq<char>, Seq<char>)>, key: Seq<char>) -> bool {
    exists|i: int| 0 <= i < entries.len() && (#[trigger] entries[i]).0 == key
}

/// The text under the key, where some entry has it.
pub open spec fn value_of(entries: Seq<(Seq<char>, Seq<char>)>, key: Seq<char>) -> Seq<char> {
    entries[choose|i: int| 0 <= i < entries.len() && (#[trigger] entries[i]).0 == key].1
}

/// Entries with distinct keys, as a map.
pub open spec fn as_map(entries: Seq<(Seq<char>, Seq<char>)>) -> Map<Seq<char>, Seq<char>> {
    Map::new(|key: Seq<char>| has_key(entries, key), |key: Seq<char>| value_of(entries, key))
}

impl View for TemplateData {
    type V = Map<Seq<char>, Seq<char>>;

    closed spec fn view(&self) -> Map<Seq<char>, Seq<char>> {
        as_map(self.entries.deep_view())
    }
}

/// The map holds each entry.
proof fn lemma_entry_in_map(entries: Seq<(Seq<char>, Seq<char>)>, i: int)
    requires
        keys_are_distinct(entries),
        0 <= i < entries.len(),
    ensures
        as_map(entries).contains_key(entries[i].0),
        as_map(entries)[entries[i].0] == entries[i].1,
{
    let key = entries[i].0;
    assert(has_key(entries, key));
    let found = choose|k: int| 0 <= k < entries.len() && (#[trigger] entries[k]).0 == key;
    assert(found == i);
}

impl TemplateData {
    #[verifier::type_invariant]
    spec fn well_formed(&self) -> bool {
        keys_are_distinct(self.entries.deep_view())
    }

    /// No texts at all.
    pub fn new() -> (data: TemplateData)
        ensures
            data@ == Map::<Seq<char>, Seq<char>>::empty(),
    {
        let data = TemplateData { entries: Vec::new() };
        proof {
            assert(data@ =~= Map::<Seq<char>, Seq<char>>::empty());
        }
        data
    }

    /// The place of a key among the entries.
    fn position(entries: &Vec<(String, String)>, key: &str) -> (place: Option<usize>)
        ensures
            match place {
                Some(i) => i < entries.len() && entries@[i as int].0@ == key@,
                None => !has_key(entries.deep_view(), key@),
            },
    {
        let wanted: String = key.to_string();
        let mut i: usize = 0;
        while i < entries.len()
            invariant
                i <= entries.len(),
                wanted@ == key@,
                forall|k: int| 0 <= k < i ==> (#[trigger] entries.deep_view()[k]).0 != key@,
            decreases entries.len() - i,
        {
            if entries[i].0 == wanted {
                return Some(i);
            }
            i = i + 1;
        }
        None
    }

    /// Puts a text under a key, in place of what was there.
    pub fn insert(&mut self, key: String, value: String)
        ensures
            final(self)@ == old(self)@.insert(key@, value@),
    {
        proof {
            use_type_invariant(&*self);
        }
        let mut entries: Vec<(String, String)> = Vec::new();
        std::mem::swap(&mut entries, &mut self.entries);
        let ghost before = entries.deep_view();
        match Self::position(&entries, key.as_str()) {
            Some(i) => {
                entries.set(i, (key, value));
                proof {
                    let after = entries.deep_view();
                    assert(after =~= before.update(i as int, (key@, value@)));
                    assert(before[i as int].0 == key@);
                    assert(forall|k: int| 0 <= k < after.len() ==> after[k].0 == before[k].0);
                    lemma_same_but_one(before, after, i as int);
                }
            },
            None => {
                entries.push((key, value));
                proof {
                    let after = entries.deep_view();
                    assert(after =~= before.push((key@, value@)));
                    lemma_one_more(before, after);
                }
            },
        }
        self.entries = entries;
    }

    /// The text under a key.
    pub fn get(&self, key: &str) -> (value: Option<&String>)
        ensures
            match value {
                Some(text) => self@.contains_key(key@) && text@ == self@[key@],
                None => !self@.contains_key(key@),
            },
    {
        proof {
            use_type_invariant(self);
        }
        match Self::position(&self.entries, key) {
            Some(i) => {
                proof {
                    lemma_entry_in_map(self.entries.deep_view(), i as int);
                }
                Some(&self.entries[i].1)
            },
            None => None,
        }
    }

    /// All the texts with their keys.
    pub fn into_entries(self) -> (entries: Vec<(String, String)>)
        ensures
            keys_are_distinct(entries.deep_view()),
            as_map(entries.deep_view()) == self@,
            forall|i: int|
                0 <= i < entries.len() ==> self@.contains_key((#[trigger] entries@[i]).0@)
                    && self@[entries@[i].0@] == entries@[i].1@,
            forall|key: Seq<char>| #[trigger]
                self@.contains_key(key) ==> exists|i: int|
                    0 <= i < entries.len() && (#[trigger] entries@[i]).0@ == key,
    {
        proof {
            use_type_invariant(&self);
            let all = self.entries.deep_view();
            assert forall|i: int| 0 <= i < self.entries.len() implies self@.contains_key(
                (#[trigger] self.entries@[i]).0@,
            ) && self@[self.entries@[i].0@] == self.entries@[i].1@ by {
                lemma_entry_in_map(all, i);
                assert(all[i] == (self.entries@[i].0@, self.entries@[i].1@));
            }
            assert forall|key: Seq<char>| #[trigger] self@.contains_key(key) implies exists|i: int|
                0 <= i < self.entries.len() && (#[trigger] self.entries@[i]).0@ == key by {
                assert(has_key(all, key));
                let i = choose|i: int| 0 <= i < all.len() && (#[trigger] all[i]).0 == key;
                assert(self.entries@[i].0@ == key);
            }
        }
        self.entries
    }
}

proof fn lemma_same_but_one(
    before: Seq<(Seq<char>, Seq<char>)>,
    after: Seq<(Seq<char>, Seq<char>)>,
    i: int,
)
    requires
        keys_are_distinct(before),
        keys_are_distinct(after),
        0 <= i < before.len(),
        after == before.update(i, after[i]),
        after[i].0 == before[i].0,
    ensures
        as_map(after) == as_map(before).insert(after[i].0, after[i].1),
{
    let expected = as_map(before).insert(after[i].0, after[i].1);
    assert forall|key: Seq<char>| as_map(after).contains_key(key) == expected.contains_key(key) by {
        if has_key(after, key) {
            let k = choose|k: int| 0 <= k < after.len() && (#[trigger] after[k]).0 == key;
            assert(before[k].0 == key);
        }
        if has_key(before, key) {
            let k = choose|k: int| 0 <= k < before.len() && (#[trigger] before[k]).0 == key;
            assert(after[k].0 == key);
        }
        assert(after[i].0 == after[i].0);
    }
    assert forall|key: Seq<char>| as_map(after).contains_key(key) implies as_map(after)[key]
        == expected[key] by {
        let k = choose|k: int| 0 <= k < after.len() && (#[trigger] after[k]).0 == key;
        lemma_entry_in_map(after, k);
        if k != i {
            lemma_entry_in_map(before, k);
            assert(key != after[i].0);
        }
    }
    assert(as_map(after) =~= expected);
}

proof fn lemma_one_more(
    before: Seq<(Seq<char>, Seq<char>)>,
    after: Seq<(Seq<char>, Seq<char>)>,
)
    requires
        keys_are_distinct(before),
        keys_are_distinct(after),
        after.len() == before.len() + 1,
        after == before.push(after.last()),
    ensures
        as_map(after) == as_map(before).insert(after.last().0, after.last().1),
{
    let last = after.len() - 1;
    let expected = as_map(before).insert(after.last().0, after.last().1);
    assert forall|key: Seq<char>| as_map(after).contains_key(key) == expected.contains_key(key) by {
        if has_key(after, key) {
            let k = choose|k: int| 0 <= k < after.len() && (#[trigger] after[k]).0 == key;
            if k < last {
                assert(before[k].0 == key);
            }
        }
        if has_key(before, key) {
            let k = choose|k: int| 0 <= k < before.len() && (#[trigger] before[k]).0 == key;
            assert(after[k].0 == key);
        }
        assert(after[last].0 == after.last().0);
    }
    assert forall|key: Seq<char>| as_map(after).contains_key(key) implies as_map(after)[key]
        == expected[key] by {
        let k = choose|k: int| 0 <= k < after.len() && (#[trigger] after[k]).0 == key;
        lemma_entry_in_map(after, k);
        if k < last {
            lemma_entry_in_map(before, k);
            assert(key != after[last].0);
        }
    }
    assert(as_map(after) =~= expected);
}

/// The template to render, and what to render it from.
#[derive(Debug)]
pub struct TemplateResponse {
    pub template_key: String,
    pub template_data: TemplateData,
}

/// A `TemplateResponse` as plain text.
pub struct ResponseView {
    pub template_key: Seq<char>,
    pub template_data: Map<Seq<char>, Seq<char>>,
}

impl View for TemplateResponse {
    type V = ResponseView;

    open spec fn view(&self) -> ResponseView {
        ResponseView { template_key: self.template_key@, template_data: self.template_data@ }
    }
}

/// Entries with distinct keys are a map that holds each of them, and nothing else.
pub proof fn law_entries_are_the_map(entries: Seq<(Seq<char>, Seq<char>)>, key: Seq<char>)
    requires
        forall|i: int, j: int|
            0 <= i < j < entries.len() ==> (#[trigger] entries[i]).0 != (#[trigger] entries[j]).0,
    ensures
        as_map(entries).contains_key(key) <==> exists|i: int|
            0 <= i < entries.len() && (#[trigger] entries[i]).0 == key,
        forall|i: int|
            0 <= i < entries.len() ==> as_map(entries)[(#[trigger] entries[i]).0] == entries[i].1,
{
    assert forall|i: int| 0 <= i < entries.len() implies as_map(entries)[(#[trigger] entries[i]).0]
        == entries[i].1 by {
        lemma_entry_in_map(entries, i);
    }
}

/// What is said of a response is said of its own key and texts.
pub proof fn law_response_is_shown_as_it_is(response: TemplateResponse)
    ensures
        response@.template_key == response.template_key@,
        response@.template_data == response.template_data@,
{
}

} // verus!
