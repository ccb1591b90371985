//! Objects of the published description.

use vstd::prelude::*;

use crate::text::{
    is_word, lemma_text_before_excludes, lemma_text_before_transitive, spec_text_before, text_order,
    TextOrder,
};

verus! {

/// The kind of operation on a path: the HTTP method it answers.
#[derive(Clone, Copy, Debug, PartialEq, Eq, Hash, PartialOrd, Ord)]
pub enum PathItemType {
    /// `GET`
    Get,
    /// `POST`
    Post,
    /// `PUT`
    Put,
    /// `DELETE`
    Delete,
    /// `OPTIONS`
    Options,
    /// `HEAD`
    Head,
    /// `PATCH`
    Patch,
    /// `TRACE`
    Trace,
    /// `CONNECT`
    Connect,
}

impl PathItemType {
    /// The name under which the operation stands in the description: the
    /// method in lower case.
    pub fn as_str(&self) -> (name: &'static str)
        ensures
            name@ == match self {
                PathItemType::Get => "get"@,
                PathItemType::Post => "post"@,
                PathItemType::Put => "put"@,
                PathItemType::Delete => "delete"@,
                PathItemType::Options => "options"@,
                PathItemType::Head => "head"@,
                PathItemType::Patch => "patch"@,
                PathItemType::Trace => "trace"@,
                PathItemType::Connect => "connect"@,
            },
    {
        match self {
            PathItemType::Get => "get",
            PathItemType::Post => "post",
            PathItemType::Put => "put",
            PathItemType::Delete => "delete",
            PathItemType::Options => "options",
            PathItemType::Head => "head",
            PathItemType::Patch => "patch",
            PathItemType::Trace => "trace",
            PathItemType::Connect => "connect",
        }
    }
}

/// Whether something has to be there.
#[derive(Clone, Copy, Debug, PartialEq, Eq, Structural)]
pub enum Required {
    /// It has to.
    True,
    /// It need not.
    False,
}

/// Whether the media types of `entries` rise in the order of texts. Then
/// no media type stands twice.
pub open spec fn spec_sorted<C>(entries: Seq<(String, C)>) -> bool {
    forall|i: int, j: int|
        0 <= i < j < entries.len() ==> spec_text_before(
            (#[trigger] entries[i]).0@,
            (#[trigger] entries[j]).0@,
        )
}

/// The content that stands under the media type in `entries`, if any does.
pub open spec fn spec_content_in<C>(entries: Seq<(String, C)>, content_type: Seq<char>) -> Option<
    C,
> {
    if exists|i: int| 0 <= i < entries.len() && (#[trigger] entries[i]).0@ == content_type {
        let at = choose|i: int| 0 <= i < entries.len() && (#[trigger] entries[i]).0@ == content_type;
        Some(entries[at].1)
    } else {
        None
    }
}

/// In entries that rise, no media type stands twice.
pub proof fn lemma_sorted_is_distinct<C>(entries: Seq<(String, C)>)
    requires
        spec_sorted(entries),
    ensures
        forall|i: int, j: int|
            0 <= i < j < entries.len() ==> (#[trigger] entries[i]).0@ != (#[trigger] entries[j]).0@,
{
    assert forall|i: int, j: int| 0 <= i < j < entries.len() implies (#[trigger] entries[i]).0@ != (
    #[trigger] entries[j]).0@ by {
        lemma_text_before_excludes(entries[i].0@, entries[j].0@);
    }
}

/// In entries that rise, what stands under a media type is what stands at
/// the place where the media type is found.
pub proof fn lemma_content_at<C>(entries: Seq<(String, C)>, place: int)
    requires
        spec_sorted(entries),
        0 <= place < entries.len(),
    ensures
        spec_content_in(entries, entries[place].0@) == Some(entries[place].1),
{
    lemma_sorted_is_distinct(entries);
    let key = entries[place].0@;
    let at = choose|i: int| 0 <= i < entries.len() && (#[trigger] entries[i]).0@ == key;
    if at < place {
        assert(entries[at].0@ != entries[place].0@);
    } else if place < at {
        assert(entries[place].0@ != entries[at].0@);
    }
}

/// Entries that hold the same things under other places than one, be it
/// that the one was set anew or put in between, hold the same content under
/// every media type but that of the one.
proof fn lemma_content_elsewhere<C>(
    before: Seq<(String, C)>,
    after: Seq<(String, C)>,
    place: int,
    replaced: bool,
    other: Seq<char>,
)
    requires
        spec_sorted(before),
        spec_sorted(after),
        0 <= place < after.len(),
        after[place].0@ != other,
        replaced ==> before.len() == after.len() && before[place].0@ == after[place].0@,
        !replaced ==> before.len() + 1 == after.len(),
        forall|i: int| 0 <= i < place ==> before[i] == after[i],
        replaced ==> forall|i: int| place < i < before.len() ==> before[i] == after[i],
        !replaced ==> forall|i: int| place <= i < before.len() ==> before[i] == after[i + 1],
    ensures
        spec_content_in(after, other) == spec_content_in(before, other),
{
    if exists|i: int| 0 <= i < before.len() && (#[trigger] before[i]).0@ == other {
        let at = choose|i: int| 0 <= i < before.len() && (#[trigger] before[i]).0@ == other;
        let moved = if replaced || at < place {
            at
        } else {
            at + 1
        };
        assert(after[moved] == before[at]);
        lemma_content_at(before, at);
        lemma_content_at(after, moved);
    } else {
        if exists|i: int| 0 <= i < after.len() && (#[trigger] after[i]).0@ == other {
            let at = choose|i: int| 0 <= i < after.len() && (#[trigger] after[i]).0@ == other;
            let came_from = if replaced || at < place {
                at
            } else {
                at - 1
            };
            assert(before[came_from] == after[at]);
            assert(false);
        }
    }
}

/// The contents of a body by media type, kept in the rising order of the
/// media types. No media type stands twice.
#[derive(Debug, PartialEq)]
pub struct ContentMap<C> {
    entries: Vec<(String, C)>,
}

impl<C> ContentMap<C> {
    /// What holds of every map: the media types rise.
    #[verifier::type_invariant]
    spec fn inv(&self) -> bool {
        spec_sorted(self.entries@)
    }

    /// The entries, in the rising order of their media types.
    pub closed spec fn spec_entries(&self) -> Seq<(String, C)> {
        self.entries@
    }

    /// The content that stands under the media type, if any does.
    pub open spec fn spec_get(&self, content_type: Seq<char>) -> Option<C> {
        spec_content_in(self.spec_entries(), content_type)
    }

    /// Whether anything stands under the media type.
    pub open spec fn spec_has(&self, content_type: Seq<char>) -> bool {
        self.spec_get(content_type) is Some
    }

    /// The number of entries.
    pub open spec fn spec_len(&self) -> nat {
        self.spec_entries().len()
    }

    /// A map without entries.
    pub fn new() -> (map: Self)
        ensures
            map.spec_entries().len() == 0,
    {
        ContentMap { entries: Vec::new() }
    }

    /// Whether the map has no entries.
    pub fn is_empty(&self) -> (empty: bool)
        ensures
            empty == (self.spec_entries().len() == 0),
    {
        self.entries.len() == 0
    }

    /// The number of entries.
    pub fn len(&self) -> (len: usize)
        ensures
            len == self.spec_entries().len(),
            spec_sorted(self.spec_entries()),
    {
        proof {
            use_type_invariant(self);
        }
        self.entries.len()
    }

    /// The entry at `index` in the rising order of the media types: the
    /// media type and the content under it.
    pub fn entry(&self, index: usize) -> (entry: Option<(&str, &C)>)
        ensures
            spec_sorted(self.spec_entries()),
            match entry {
                Some((content_type, content)) => {
                    &&& index < self.spec_entries().len()
                    &&& content_type@ == self.spec_entries()[index as int].0@
                    &&& *content == self.spec_entries()[index as int].1
                },
                None => index >= self.spec_entries().len(),
            },
    {
        proof {
            use_type_invariant(self);
        }
        if index < self.entries.len() {
            Some((self.entries[index].0.as_str(), &self.entries[index].1))
        } else {
            None
        }
    }

    /// The place of the media type in the entries, if it is there.
    fn position(&self, content_type: &str) -> (found: Option<usize>)
        ensures
            match found {
                Some(at) => at < self.spec_entries().len() && self.spec_entries()[at as int].0@
                    == content_type@,
                None => forall|i: int|
                    0 <= i < self.spec_entries().len() ==> (#[trigger] self.spec_entries()[i]).0@
                        != content_type@,
            },
    {
        let mut i: usize = 0;
        while i < self.entries.len()
            invariant
                i <= self.entries.len(),
                forall|j: int| 0 <= j < i ==> (#[trigger] self.entries@[j]).0@ != content_type@,
            decreases self.entries.len() - i,
        {
            if is_word(self.entries[i].0.as_str(), content_type) {
                return Some(i);
            }
            i += 1;
        }
        None
    }

    /// The content that stands under the media type, if any does.
    pub fn get(&self, content_type: &str) -> (content: Option<&C>)
        ensures
            match content {
                Some(found) => self.spec_get(content_type@) == Some(*found),
                None => self.spec_get(content_type@) is None,
            },
    {
        proof {
            use_type_invariant(self);
        }
        match self.position(content_type) {
            Some(at) => {
                proof {
                    lemma_content_at(self.entries@, at as int);
                }
                Some(&self.entries[at].1)
            },
            None => None,
        }
    }

    /// Puts `content` under the media type: in the place of what stood
    /// there, or, where nothing did, at the place that keeps the media types
    /// rising. What stands under the other media types stays.
    pub fn insert(&mut self, content_type: String, content: C)
        ensures
            spec_sorted(final(self).spec_entries()),
            final(self).spec_get(content_type@) == Some(content),
            forall|other: Seq<char>|
                other != content_type@ ==> final(self).spec_get(other) == old(self).spec_get(other),
            old(self).spec_has(content_type@) ==> final(self).spec_len() == old(self).spec_len(),
            !old(self).spec_has(content_type@) ==> final(self).spec_len() == old(self).spec_len()
                + 1,
    {
        proof {
            use_type_invariant(&*self);
        }
        let mut entries: Vec<(String, C)> = Vec::new();
        core::mem::swap(&mut entries, &mut self.entries);
        let ghost before = entries@;
        let ghost key = content_type@;
        let mut i: usize = 0;
        let mut place: Option<(usize, bool)> = None;
        while i < entries.len()
            invariant_except_break
                place is None,
            invariant
                i <= entries.len(),
                entries@ == before,
                key == content_type@,
                forall|j: int| 0 <= j < i ==> spec_text_before((#[trigger] before[j]).0@, key),
            ensures
                entries@ == before,
                key == content_type@,
                match place {
                    Some((at, replaced)) => {
                        &&& at == i
                        &&& i < before.len()
                        &&& replaced ==> before[i as int].0@ == key
                        &&& !replaced ==> spec_text_before(key, before[i as int].0@)
                    },
                    None => i == before.len(),
                },
                forall|j: int| 0 <= j < i ==> spec_text_before((#[trigger] before[j]).0@, key),
            decreases entries.len() - i,
        {
            match text_order(entries[i].0.as_str(), content_type.as_str()) {
                TextOrder::Before => {
                    i += 1;
                },
                TextOrder::Same => {
                    place = Some((i, true));
                    break ;
                },
                TextOrder::After => {
                    place = Some((i, false));
                    break ;
                },
            }
        }
        let replaced = match place {
            Some((at, true)) => {
                entries.set(at, (content_type, content));
                true
            },
            Some((at, false)) => {
                entries.insert(at, (content_type, content));
                false
            },
            None => {
                entries.push((content_type, content));
                false
            },
        };
        let ghost after = entries@;
        let ghost at = i as int;
        proof {
            lemma_sorted_is_distinct(before);
            assert(after[at] == (content_type, content));
            assert forall|j: int| 0 <= j < at implies before[j] == after[j] by {}
            if replaced {
                assert forall|j: int| at < j < before.len() implies before[j] == after[j] by {}
            } else {
                assert forall|j: int| at <= j < before.len() implies before[j] == after[j + 1] by {}
            }
            assert forall|a: int, b: int| 0 <= a < b < after.len() implies spec_text_before(
                (#[trigger] after[a]).0@,
                (#[trigger] after[b]).0@,
            ) by {
                let from = |x: int| if replaced || x < at { x } else { x - 1 };
                if a == at {
                    if replaced {
                        assert(after[b] == before[b]);
                        assert(spec_text_before(before[at].0@, before[b].0@));
                    } else {
                        assert(after[b] == before[b - 1]);
                        if b - 1 > at {
                            assert(spec_text_before(before[at].0@, before[b - 1].0@));
                            lemma_text_before_transitive(key, before[at].0@, before[b - 1].0@);
                        }
                    }
                } else if b == at {
                    assert(after[a] == before[a]);
                } else {
                    assert(after[a] == before[from(a)]);
                    assert(after[b] == before[from(b)]);
                    assert(spec_text_before(before[from(a)].0@, before[from(b)].0@));
                }
            }
            lemma_content_at(after, at);
            assert forall|other: Seq<char>| other != key implies spec_content_in(after, other)
                == spec_content_in(before, other) by {
                lemma_content_elsewhere(before, after, at, replaced, other);
            }
            if replaced {
                lemma_content_at(before, at);
            } else {
                if exists|j: int| 0 <= j < before.len() && (#[trigger] before[j]).0@ == key {
                    let j = choose|j: int| 0 <= j < before.len() && (#[trigger] before[j]).0@ == key;
                    if j < at {
                        lemma_text_before_excludes(before[j].0@, key);
                    } else {
                        assert(spec_text_before(key, before[at].0@));
                        if j > at {
                            assert(spec_text_before(before[at].0@, before[j].0@));
                            lemma_text_before_transitive(key, before[at].0@, before[j].0@);
                        }
                        lemma_text_before_excludes(key, before[j].0@);
                    }
                    assert(false);
                }
            }
        }
        self.entries = entries;
    }
}

impl<C> Default for ContentMap<C> {
    fn default() -> (map: Self)
        ensures
            map.spec_entries().len() == 0,
    {
        ContentMap::new()
    }
}

/// The body of a request, as the description tells it.
#[non_exhaustive]
#[derive(Debug, PartialEq)]
pub struct RequestBody<C> {
    /// What the body is, in words. Markdown may be used.
    pub description: Option<String>,
    /// The contents of the body by media type, in the rising order of the
    /// media types.
    pub content: ContentMap<C>,
    /// Whether a request has to have the body.
    pub required: Option<Required>,
}

impl<C> Default for RequestBody<C> {
    fn default() -> (body: Self)
        ensures
            body.description is None,
            body.content.spec_entries().len() == 0,
            body.required is None,
    {
        RequestBody { description: None, content: ContentMap::new(), required: None }
    }
}

impl<C> RequestBody<C> {
    /// A body of which nothing is told yet: what `default` gives.
    pub fn new() -> (body: Self)
        ensures
            body.description is None,
            body.content.spec_entries().len() == 0,
            body.required is None,
    {
        Default::default()
    }

    /// Tells what the body is, in words.
    pub fn description(self, description: &str) -> (body: Self)
        ensures
            body.description matches Some(text) && text@ == description@,
            body.content == self.content,
            body.required == self.required,
    {
        let mut body = self;
        body.description = Some(description.to_owned());
        body
    }

    /// Tells whether a request has to have the body.
    pub fn required(self, required: Required) -> (body: Self)
        ensures
            body.required == Some(required),
            body.description == self.description,
            body.content == self.content,
    {
        let mut body = self;
        body.required = Some(required);
        body
    }

    /// Tells the content of the body under one media type, such as
    /// `application/json`. What was told under that media type before gives
    /// way; a new media type adds one entry, at its place in the rising
    /// order. What is told under the other media types stays.
    pub fn content(self, content_type: &str, content: C) -> (body: Self)
        ensures
            body.description == self.description,
            body.required == self.required,
            spec_sorted(body.content.spec_entries()),
            body.content.spec_get(content_type@) == Some(content),
            forall|other: Seq<char>|
                other != content_type@ ==> body.content.spec_get(other) == self.content.spec_get(
                    other,
                ),
            self.content.spec_has(content_type@) ==> body.content.spec_len()
                == self.content.spec_len(),
            !self.content.spec_has(content_type@) ==> body.content.spec_len()
                == self.content.spec_len() + 1,
    {
        let mut map = self.content;
        map.insert(content_type.to_owned(), content);
        RequestBody { description: self.description, content: map, required: self.required }
    }
}

} // verus!
