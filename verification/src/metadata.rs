//! Metadata objects: the key/value part of a marker message or an error body,
//! two levels deep, where a later entry for a key replaces an earlier one.

use vstd::prelude::*;
use vstd::string::*;

verus! {

/// A single metadata value.
#[derive(Debug, Clone, PartialEq, Eq)]
pub enum Scalar {
    /// The null value.
    Null,
    /// A truth value.
    Flag(bool),
    /// A nonnegative number.
    Count(u64),
    /// A text.
    Text(String),
}

/// The mathematical reading of a [`Scalar`].
pub enum ScalarView {
    /// The null value.
    Null,
    /// A truth value.
    Flag(bool),
    /// A nonnegative number.
    Count(u64),
    /// A text.
    Text(Seq<char>),
}

impl View for Scalar {
    type V = ScalarView;

    open spec fn view(&self) -> ScalarView {
        match *self {
            Scalar::Null => ScalarView::Null,
            Scalar::Flag(b) => ScalarView::Flag(b),
            Scalar::Count(n) => ScalarView::Count(n),
            Scalar::Text(t) => ScalarView::Text(t@),
        }
    }
}

/// A metadata value: a single one, or a group of named single ones.
#[derive(Debug, Clone, PartialEq, Eq)]
pub enum MetaValue {
    /// One value.
    Single(Scalar),
    /// A nested object.
    Group(Vec<(String, Scalar)>),
}

/// The mathematical reading of a [`MetaValue`].
#[verifier::ext_equal]
pub enum MetaView {
    /// One value.
    Single(ScalarView),
    /// A nested object.
    Group(Map<Seq<char>, ScalarView>),
}

/// The object that named single values make up; later entries win.
pub open spec fn group_map(entries: Seq<(String, Scalar)>) -> Map<Seq<char>, ScalarView>
    decreases entries.len(),
{
    if entries.len() == 0 {
        Map::empty()
    } else {
        group_map(entries.drop_last()).insert(entries.last().0@, entries.last().1@)
    }
}

impl View for MetaValue {
    type V = MetaView;

    open spec fn view(&self) -> MetaView {
        match *self {
            MetaValue::Single(s) => MetaView::Single(s@),
            MetaValue::Group(g) => MetaView::Group(group_map(g@)),
        }
    }
}

/// A metadata object as a list of entries.
#[derive(Debug, Clone, PartialEq, Eq)]
pub struct Metadata {
    /// The entries in the order they were written.
    pub entries: Vec<(String, MetaValue)>,
}

/// The object that entries make up; later entries win.
pub open spec fn entry_map(entries: Seq<(String, MetaValue)>) -> Map<Seq<char>, MetaView>
    decreases entries.len(),
{
    if entries.len() == 0 {
        Map::empty()
    } else {
        entry_map(entries.drop_last()).insert(entries.last().0@, entries.last().1@)
    }
}

impl View for Metadata {
    type V = Map<Seq<char>, MetaView>;

    open spec fn view(&self) -> Map<Seq<char>, MetaView> {
        entry_map(self.entries@)
    }
}

/// The reading of a text entry.
pub open spec fn text_value(t: Seq<char>) -> MetaView {
    MetaView::Single(ScalarView::Text(t))
}

/// The reading of a flag entry.
pub open spec fn flag_value(b: bool) -> MetaView {
    MetaView::Single(ScalarView::Flag(b))
}

/// The reading of a number entry.
pub open spec fn count_value(n: u64) -> MetaView {
    MetaView::Single(ScalarView::Count(n))
}

/// The reading of a null entry.
pub open spec fn null_value() -> MetaView {
    MetaView::Single(ScalarView::Null)
}

/// Appending entries writes them over the object.
pub proof fn lemma_entry_map_concat(a: Seq<(String, MetaValue)>, b: Seq<(String, MetaValue)>)
    ensures
        entry_map(a + b) == entry_map(a).union_prefer_right(entry_map(b)),
    decreases b.len(),
{
    if b.len() > 0 {
        lemma_entry_map_concat(a, b.drop_last());
        assert((a + b).drop_last() =~= a + b.drop_last());
    }
}

impl Metadata {
    /// An object without entries.
    pub fn new() -> (r: Metadata)
        ensures
            r@ == Map::<Seq<char>, MetaView>::empty(),
    {
        Metadata { entries: Vec::new() }
    }

    /// Writes one entry.
    pub fn set(&mut self, key: &str, value: MetaValue)
        ensures
            final(self)@ == old(self)@.insert(key@, value@),
    {
        let ghost before = self.entries@;
        self.entries.push((key.to_owned(), value));
        assert(self.entries@.drop_last() =~= before);
    }

    /// Writes a text entry.
    pub fn set_text(&mut self, key: &str, value: &str)
        ensures
            final(self)@ == old(self)@.insert(key@, text_value(value@)),
    {
        self.set(key, MetaValue::Single(Scalar::Text(value.to_owned())));
    }

    /// Writes a flag entry.
    pub fn set_flag(&mut self, key: &str, value: bool)
        ensures
            final(self)@ == old(self)@.insert(key@, flag_value(value)),
    {
        self.set(key, MetaValue::Single(Scalar::Flag(value)));
    }

    /// Writes a number entry.
    pub fn set_count(&mut self, key: &str, value: u64)
        ensures
            final(self)@ == old(self)@.insert(key@, count_value(value)),
    {
        self.set(key, MetaValue::Single(Scalar::Count(value)));
    }

    /// Writes all entries of `other` over this object's.
    pub fn extend(&mut self, other: Metadata)
        ensures
            final(self)@ == old(self)@.union_prefer_right(other@),
    {
        let mut more: Vec<(String, MetaValue)> = other.entries;
        proof {
            lemma_entry_map_concat(self.entries@, more@);
        }
        self.entries.append(&mut more);
    }

    /// Reads the value of a key.
    pub fn get(&self, key: &str) -> (r: Option<&MetaValue>)
        ensures
            r is Some <==> self@.contains_key(key@),
            r matches Some(v) ==> v@ == self@[key@],
    {
        let wanted: String = key.to_owned();
        let mut i: usize = self.entries.len();
        assert(self.entries@.subrange(0, i as int) =~= self.entries@);
        while i > 0
            invariant
                i <= self.entries@.len(),
                wanted@ == key@,
                self@.contains_key(key@) == entry_map(
                    self.entries@.subrange(0, i as int),
                ).contains_key(key@),
                self@.contains_key(key@) ==> self@[key@] == entry_map(
                    self.entries@.subrange(0, i as int),
                )[key@],
            decreases i,
        {
            proof {
                let all = self.entries@.subrange(0, i as int);
                assert(all.drop_last() =~= self.entries@.subrange(0, i - 1));
            }
            if self.entries[i - 1].0 == wanted {
                return Some(&self.entries[i - 1].1);
            }
            i = i - 1;
        }
        None
    }
}

/// A nested object under construction.
pub struct GroupBuilder {
    /// The entries written so far.
    pub entries: Vec<(String, Scalar)>,
}

impl GroupBuilder {
    /// A nested object without entries.
    pub fn new() -> (r: GroupBuilder)
        ensures
            group_map(r.entries@) == Map::<Seq<char>, ScalarView>::empty(),
    {
        GroupBuilder { entries: Vec::new() }
    }

    /// Writes one entry.
    pub fn set(&mut self, key: &str, value: Scalar)
        ensures
            group_map(final(self).entries@) == group_map(old(self).entries@).insert(key@, value@),
    {
        let ghost before = self.entries@;
        self.entries.push((key.to_owned(), value));
        assert(self.entries@.drop_last() =~= before);
    }

    /// The finished nested object.
    pub fn build(self) -> (r: MetaValue)
        ensures
            r@ == MetaView::Group(group_map(self.entries@)),
    {
        MetaValue::Group(self.entries)
    }
}

} // verus!
