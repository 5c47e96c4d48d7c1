//! Per-language byte totals: one entry per language name, in the order in
//! which the names first appeared, each with its display colour and the sum
//! of its sizes over every repository merged so far.

use vstd::prelude::*;
use vstd::string::*;
use crate::error::Error;
use crate::text_map::TextMap;

verus! {

/// The colour of a language that the colour table does not know.
pub const FALLBACK_COLOR: &'static str = "#FBFF00";

/// A language with the bytes written in it.
#[derive(Clone, Debug, PartialEq, Eq)]
pub struct Language {
    /// The language's name.
    pub name: String,
    /// The colour to draw it in, as `#` and hexadecimal digits.
    pub color: String,
    /// The bytes of code, summed over the repositories.
    pub size: u64,
}

/// A language total as pure values.
pub ghost struct LanguageTotal {
    pub name: Seq<char>,
    pub color: Seq<char>,
    pub size: nat,
}

impl View for Language {
    type V = LanguageTotal;

    open spec fn view(&self) -> LanguageTotal {
        LanguageTotal { name: self.name@, color: self.color@, size: self.size as nat }
    }
}

/// The bytes of one language in one repository.
#[derive(Clone, Debug, PartialEq, Eq)]
pub struct LanguageSize {
    /// The language's name.
    pub name: String,
    /// The bytes written in it.
    pub bytes: u64,
}

/// A language size as pure values.
pub ghost struct LanguageBytes {
    pub name: Seq<char>,
    pub bytes: nat,
}

impl View for LanguageSize {
    type V = LanguageBytes;

    open spec fn view(&self) -> LanguageBytes {
        LanguageBytes { name: self.name@, bytes: self.bytes as nat }
    }
}

/// The sizes of a list as pure values.
pub open spec fn sizes_view(list: Seq<LanguageSize>) -> Seq<LanguageBytes> {
    Seq::new(list.len(), |i: int| list[i]@)
}

/// The index of the first entry named `name`, or the number of entries where
/// none has that name.
pub open spec fn index_of(entries: Seq<LanguageTotal>, name: Seq<char>) -> int
    decreases entries.len(),
{
    if entries.len() == 0 || entries[0].name == name {
        0
    } else {
        1 + index_of(entries.drop_first(), name)
    }
}

/// The bytes recorded under `name`; zero where no entry has that name.
pub open spec fn size_of(entries: Seq<LanguageTotal>, name: Seq<char>) -> nat {
    let i = index_of(entries, name);
    if 0 <= i < entries.len() {
        entries[i].size
    } else {
        0
    }
}

/// Whether no two entries share a name.
pub open spec fn distinct_names(entries: Seq<LanguageTotal>) -> bool {
    forall|i: int, j: int|
        0 <= i < j < entries.len() ==> (#[trigger] entries[i]).name != (#[trigger] entries[j]).name
}

/// Whether every total fits 64 bits.
pub open spec fn fits(entries: Seq<LanguageTotal>) -> bool {
    forall|i: int| 0 <= i < entries.len() ==> (#[trigger] entries[i]).size <= u64::MAX
}

/// The colour of `name`: the one the table gives, else the fallback.
pub open spec fn color_of(colors: Map<Seq<char>, Seq<char>>, name: Seq<char>) -> Seq<char> {
    if colors.contains_key(name) {
        colors[name]
    } else {
        FALLBACK_COLOR@
    }
}

/// Adds `bytes` to the entry named `name`; where there is none, appends one
/// with that size and the colour of the name.
pub open spec fn upsert(
    entries: Seq<LanguageTotal>,
    name: Seq<char>,
    bytes: nat,
    colors: Map<Seq<char>, Seq<char>>,
) -> Seq<LanguageTotal> {
    let i = index_of(entries, name);
    if 0 <= i < entries.len() {
        entries.update(i, LanguageTotal { size: entries[i].size + bytes, ..entries[i] })
    } else {
        entries.push(LanguageTotal { name, color: color_of(colors, name), size: bytes })
    }
}

/// The entries after every size of `list` has been added, first to last.
pub open spec fn merged(
    entries: Seq<LanguageTotal>,
    list: Seq<LanguageBytes>,
    colors: Map<Seq<char>, Seq<char>>,
) -> Seq<LanguageTotal>
    decreases list.len(),
{
    if list.len() == 0 {
        entries
    } else {
        merged(upsert(entries, list[0].name, list[0].bytes, colors), list.drop_first(), colors)
    }
}

/// `index_of` lies within bounds, points at an entry of that name when it is
/// inside, and no earlier entry has the name.
pub proof fn lemma_index_of(entries: Seq<LanguageTotal>, name: Seq<char>)
    ensures
        0 <= index_of(entries, name) <= entries.len(),
        index_of(entries, name) < entries.len() ==> entries[index_of(entries, name)].name == name,
        forall|i: int| 0 <= i < index_of(entries, name) ==> (#[trigger] entries[i]).name != name,
    decreases entries.len(),
{
    if entries.len() == 0 || entries[0].name == name {
    } else {
        let rest = entries.drop_first();
        lemma_index_of(rest, name);
        assert forall|i: int| 0 <= i < index_of(entries, name) implies (#[trigger] entries[i]).name
            != name by {
            if i > 0 {
                assert(entries[i] == rest[i - 1]);
            }
        }
    }
}

/// An index whose entry has the name, with no such entry before it, is the
/// one that `index_of` gives; so is the length where no entry has the name.
pub proof fn lemma_index_of_is(entries: Seq<LanguageTotal>, name: Seq<char>, k: int)
    requires
        0 <= k <= entries.len(),
        forall|i: int| 0 <= i < k ==> (#[trigger] entries[i]).name != name,
        k < entries.len() ==> entries[k].name == name,
    ensures
        index_of(entries, name) == k,
{
    lemma_index_of(entries, name);
    let f = index_of(entries, name);
    if f < k {
        assert(entries[f].name == name);
    }
}

/// Adding bytes keeps the names distinct.
pub proof fn lemma_upsert_distinct(
    entries: Seq<LanguageTotal>,
    name: Seq<char>,
    bytes: nat,
    colors: Map<Seq<char>, Seq<char>>,
)
    requires
        distinct_names(entries),
    ensures
        distinct_names(upsert(entries, name, bytes, colors)),
{
    lemma_index_of(entries, name);
    let after = upsert(entries, name, bytes, colors);
    assert forall|i: int, j: int| 0 <= i < j < after.len() implies (#[trigger] after[i]).name != (
    #[trigger] after[j]).name by {
        if j < entries.len() {
            assert(after[i].name == entries[i].name);
            assert(after[j].name == entries[j].name);
        } else {
            assert(after[i].name == entries[i].name);
        }
    }
}

/// Adding bytes to `name` raises the size recorded under `name` by exactly
/// those bytes and leaves the size under every other name as it was. No
/// size ever shrinks.
pub proof fn law_upsert_accumulates(
    entries: Seq<LanguageTotal>,
    name: Seq<char>,
    bytes: nat,
    colors: Map<Seq<char>, Seq<char>>,
    other: Seq<char>,
)
    ensures
        size_of(upsert(entries, name, bytes, colors), name) == size_of(entries, name) + bytes,
        other != name ==> size_of(upsert(entries, name, bytes, colors), other) == size_of(
            entries,
            other,
        ),
        size_of(upsert(entries, name, bytes, colors), other) >= size_of(entries, other),
{
    lemma_index_of(entries, name);
    lemma_index_of(entries, other);
    let after = upsert(entries, name, bytes, colors);
    let i = index_of(entries, name);
    let k = index_of(entries, other);
    assert forall|x: int| 0 <= x < i implies (#[trigger] after[x]).name != name by {
        assert(after[x].name == entries[x].name);
    }
    lemma_index_of_is(after, name, i);
    if other != name {
        assert forall|x: int| 0 <= x < k implies (#[trigger] after[x]).name != other by {
            assert(after[x].name == entries[x].name);
        }
        if k < entries.len() {
            lemma_index_of_is(after, other, k);
        } else {
            assert forall|x: int| 0 <= x < after.len() implies (#[trigger] after[x]).name
                != other by {
                if x < entries.len() {
                    assert(after[x].name == entries[x].name);
                }
            }
            lemma_index_of_is(after, other, after.len() as int);
        }
    }
}

/// The bytes that `list` holds under `name`, summed.
pub open spec fn bytes_named(list: Seq<LanguageBytes>, name: Seq<char>) -> nat
    decreases list.len(),
{
    if list.len() == 0 {
        0
    } else {
        let first: nat = if list[0].name == name {
            list[0].bytes
        } else {
            0
        };
        first + bytes_named(list.drop_first(), name)
    }
}

/// Merging a list raises the size under each name by the bytes that the
/// list holds under that name, in whatever order the list gives them.
pub proof fn law_merged_size_is_sum(
    entries: Seq<LanguageTotal>,
    list: Seq<LanguageBytes>,
    colors: Map<Seq<char>, Seq<char>>,
    name: Seq<char>,
)
    ensures
        size_of(merged(entries, list, colors), name) == size_of(entries, name) + bytes_named(
            list,
            name,
        ),
    decreases list.len(),
{
    if list.len() > 0 {
        law_upsert_accumulates(entries, list[0].name, list[0].bytes, colors, name);
        law_merged_size_is_sum(
            upsert(entries, list[0].name, list[0].bytes, colors),
            list.drop_first(),
            colors,
            name,
        );
    }
}

/// Whether every entry has the colour that `colors` gives its name.
pub open spec fn colored_by(entries: Seq<LanguageTotal>, colors: Map<Seq<char>, Seq<char>>) -> bool {
    forall|i: int|
        0 <= i < entries.len() ==> (#[trigger] entries[i]).color == color_of(
            colors,
            entries[i].name,
        )
}

/// Merging keeps the names distinct, and keeps every entry in the colour
/// that the table gives its name, or the fallback colour.
pub proof fn law_merged_keeps_names_and_colors(
    entries: Seq<LanguageTotal>,
    list: Seq<LanguageBytes>,
    colors: Map<Seq<char>, Seq<char>>,
)
    ensures
        distinct_names(entries) ==> distinct_names(merged(entries, list, colors)),
        colored_by(entries, colors) ==> colored_by(merged(entries, list, colors), colors),
    decreases list.len(),
{
    if list.len() > 0 {
        let next = upsert(entries, list[0].name, list[0].bytes, colors);
        lemma_index_of(entries, list[0].name);
        if distinct_names(entries) {
            lemma_upsert_distinct(entries, list[0].name, list[0].bytes, colors);
        }
        if colored_by(entries, colors) {
            assert forall|i: int| 0 <= i < next.len() implies (#[trigger] next[i]).color
                == color_of(colors, next[i].name) by {
                if i < entries.len() {
                    assert(next[i].color == entries[i].color);
                    assert(next[i].name == entries[i].name);
                }
            }
        }
        law_merged_keeps_names_and_colors(next, list.drop_first(), colors);
    }
}

/// A total that does not fit stays too large whatever is added later.
pub proof fn lemma_overflow_stays(
    entries: Seq<LanguageTotal>,
    list: Seq<LanguageBytes>,
    colors: Map<Seq<char>, Seq<char>>,
)
    requires
        !fits(entries),
    ensures
        !fits(merged(entries, list, colors)),
    decreases list.len(),
{
    if list.len() > 0 {
        let next = upsert(entries, list[0].name, list[0].bytes, colors);
        lemma_index_of(entries, list[0].name);
        let w = choose|i: int| 0 <= i < entries.len() && (#[trigger] entries[i]).size > u64::MAX;
        assert(next[w].size > u64::MAX);
        lemma_overflow_stays(next, list.drop_first(), colors);
    }
}

/// The language totals of an account.
#[derive(Debug)]
pub struct LanguageTable {
    entries: Vec<Language>,
}

impl View for LanguageTable {
    type V = Seq<LanguageTotal>;

    closed spec fn view(&self) -> Seq<LanguageTotal> {
        Seq::new(self.entries@.len(), |i: int| self.entries@[i]@)
    }
}

impl LanguageTable {
    /// No two entries share a name.
    #[verifier::type_invariant]
    spec fn names_are_distinct(self) -> bool {
        distinct_names(self@)
    }

    /// No language.
    pub fn new() -> (r: Self)
        ensures
            r@ == Seq::<LanguageTotal>::empty(),
    {
        let r = LanguageTable { entries: Vec::new() };
        assert(r@ =~= Seq::<LanguageTotal>::empty());
        r
    }

    /// The number of languages.
    pub fn len(&self) -> (r: usize)
        ensures
            r == self@.len(),
            distinct_names(self@),
    {
        proof {
            use_type_invariant(self);
        }
        self.entries.len()
    }

    /// The entries, in the order in which their names first appeared.
    pub fn entries(&self) -> (r: &Vec<Language>)
        ensures
            r@.len() == self@.len(),
            forall|i: int| 0 <= i < r@.len() ==> (#[trigger] r@[i])@ == self@[i],
            distinct_names(self@),
    {
        proof {
            use_type_invariant(self);
        }
        &self.entries
    }

    /// Where the entry named `name` stands; the number of entries where
    /// there is none.
    fn position(&self, name: &str) -> (r: usize)
        ensures
            r == index_of(self@, name@),
            r <= self@.len(),
    {
        let key = name.to_owned();
        let mut i: usize = 0;
        while i < self.entries.len()
            invariant
                i <= self.entries.len(),
                key@ == name@,
                forall|j: int| 0 <= j < i ==> (#[trigger] self@[j]).name != name@,
            decreases self.entries.len() - i,
        {
            if self.entries[i].name == key {
                proof {
                    lemma_index_of_is(self@, name@, i as int);
                }
                return i;
            }
            i += 1;
        }
        proof {
            lemma_index_of_is(self@, name@, i as int);
        }
        i
    }

    /// The entry named `name`.
    pub fn get(&self, name: &str) -> (r: Option<&Language>)
        ensures
            r is Some <==> index_of(self@, name@) < self@.len(),
            r matches Some(entry) ==> entry@ == self@[index_of(self@, name@)],
    {
        let i = self.position(name);
        if i < self.entries.len() {
            Some(&self.entries[i])
        } else {
            None
        }
    }

    /// Adds `bytes` to the total of `name`; a name not seen before gets an
    /// entry with its colour from `colors`, or the fallback colour. Fails,
    /// and changes nothing, where the total would not fit 64 bits.
    pub fn add(&mut self, name: &str, bytes: u64, colors: &TextMap) -> (r: Result<(), Error>)
        ensures
            match r {
                Ok(()) => final(self)@ == upsert(old(self)@, name@, bytes as nat, colors@),
                Err(e) => {
                    &&& e == Error::Overflow
                    &&& !fits(upsert(old(self)@, name@, bytes as nat, colors@))
                    &&& final(self)@ == old(self)@
                },
            },
            r is Ok <==> fits(upsert(old(self)@, name@, bytes as nat, colors@)),
    {
        let i = self.position(name);
        let ghost before = self@;
        let ghost after = upsert(before, name@, bytes as nat, colors@);
        proof {
            use_type_invariant(&*self);
            lemma_upsert_distinct(before, name@, bytes as nat, colors@);
        }
        if i < self.entries.len() && self.entries[i].size > u64::MAX - bytes {
            assert(after[i as int].size > u64::MAX);
            return Err(Error::Overflow);
        }
        let mut entries: Vec<Language> = Vec::new();
        std::mem::swap(&mut entries, &mut self.entries);
        assert(self@ =~= Seq::<LanguageTotal>::empty());
        if i < entries.len() {
            entries[i].size = entries[i].size + bytes;
        } else {
            let color = match colors.get(name) {
                Some(c) => c.clone(),
                None => FALLBACK_COLOR.to_owned(),
            };
            entries.push(Language { name: name.to_owned(), color, size: bytes });
        }
        assert(Seq::new(entries@.len(), |k: int| entries@[k]@) =~= after);
        self.entries = entries;
        assert(fits(after)) by {
            assert forall|k: int| 0 <= k < after.len() implies (#[trigger] after[k]).size
                <= u64::MAX by {
                assert(after[k] == self.entries@[k]@);
            }
        }
        Ok(())
    }

    /// A copy of the table.
    pub fn snapshot(&self) -> (r: Self)
        ensures
            r@ == self@,
    {
        proof {
            use_type_invariant(self);
        }
        let mut entries: Vec<Language> = Vec::new();
        let mut i: usize = 0;
        while i < self.entries.len()
            invariant
                i <= self.entries.len(),
                entries@.len() == i,
                forall|k: int| 0 <= k < i ==> (#[trigger] entries@[k])@ == self.entries@[k]@,
            decreases self.entries.len() - i,
        {
            let entry = &self.entries[i];
            entries.push(
                Language { name: entry.name.clone(), color: entry.color.clone(), size: entry.size },
            );
            i += 1;
        }
        assert(Seq::new(entries@.len(), |k: int| entries@[k]@) =~= self@);
        LanguageTable { entries }
    }

    /// Adds the language sizes of one repository, first to last. Fails, and
    /// changes nothing, where a total would not fit 64 bits.
    pub fn merge(&mut self, list: &Vec<LanguageSize>, colors: &TextMap) -> (r: Result<(), Error>)
        ensures
            match r {
                Ok(()) => final(self)@ == merged(old(self)@, sizes_view(list@), colors@),
                Err(e) => e == Error::Overflow && final(self)@ == old(self)@,
            },
            r is Ok <==> fits(merged(old(self)@, sizes_view(list@), colors@)),
    {
        let ghost all = sizes_view(list@);
        let mut work = self.snapshot();
        let mut i: usize = 0;
        assert(all.skip(0) == all);
        while i < list.len()
            invariant
                i <= list.len(),
                all == sizes_view(list@),
                self@ == old(self)@,
                merged(self@, all, colors@) == merged(work@, all.skip(i as int), colors@),
            decreases list.len() - i,
        {
            let ghost rest = all.skip(i as int);
            proof {
                assert(rest[0] == list@[i as int]@);
                assert(rest.drop_first() == all.skip(i + 1));
            }
            match work.add(list[i].name.as_str(), list[i].bytes, colors) {
                Ok(()) => {},
                Err(e) => {
                    proof {
                        lemma_overflow_stays(
                            upsert(work@, rest[0].name, rest[0].bytes, colors@),
                            rest.drop_first(),
                            colors@,
                        );
                    }
                    return Err(e);
                },
            }
            i += 1;
        }
        assert(fits(work@)) by {
            assert forall|k: int| 0 <= k < work@.len() implies (#[trigger] work@[k]).size
                <= u64::MAX by {
                assert(work@[k] == work.entries@[k]@);
            }
        }
        *self = work;
        Ok(())
    }
}

} // verus!
