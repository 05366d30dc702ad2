//! The symbol table: labels by name, with a dense id for each.
//!
//! A label gets its id where it is first named, by a definition or by a
//! use. Ids are the positions in the table, so a name occurs once.

use crate::image::SegmentType;
use crate::source::err::{
    failure, locations, Error, ErrorKind, ErrorType, Failure, Location, SourceLocation,
};
use vstd::prelude::*;

verus! {

/// Who may see a symbol.
#[derive(Debug, Clone, Copy, PartialEq, Eq, Structural)]
pub enum SymbolType {
    /// Seen in its own image only.
    Internal,
    /// Seen by other images.
    Global,
    /// Defined by another image, and unresolved until images are linked.
    Reference,
}

/// A place in an image under construction: a segment and an offset in it.
#[derive(Debug, Clone, Copy, PartialEq, Eq, Structural)]
pub struct Address(pub SegmentType, pub u16);

/// One symbol.
#[derive(Debug, Clone)]
pub struct Symbol {
    pub name: String,
    pub kind: SymbolType,
    /// Where the label is defined, once it is.
    pub definition: Option<Address>,
    /// Where the label was used before it was defined, in the order of the
    /// uses.
    pub uses: Vec<SourceLocation>,
}

/// One symbol, as plain values.
pub struct Entry {
    pub name: Seq<char>,
    pub kind: SymbolType,
    pub definition: Option<Address>,
    pub uses: Seq<Location>,
}

impl View for Symbol {
    type V = Entry;

    open spec fn view(&self) -> Entry {
        Entry {
            name: self.name@,
            kind: self.kind,
            definition: self.definition,
            uses: locations(self.uses@),
        }
    }
}

/// The symbol table.
#[derive(Debug, Clone)]
pub struct Symbols {
    pub entries: Vec<Symbol>,
}

impl View for Symbols {
    type V = Seq<Entry>;

    open spec fn view(&self) -> Seq<Entry> {
        self.entries@.map_values(|s: Symbol| s@)
    }
}

/// A symbol that has only been named: internal, undefined, unused.
pub open spec fn fresh(name: Seq<char>) -> Entry {
    Entry { name, kind: SymbolType::Internal, definition: None, uses: Seq::empty() }
}

/// The id of a name in a table: its first position, or the length of the
/// table where it does not occur.
pub open spec fn position(table: Seq<Entry>, name: Seq<char>) -> nat
    decreases table.len(),
{
    if table.len() == 0 {
        0
    } else if table[0].name == name {
        0
    } else {
        1 + position(table.drop_first(), name)
    }
}

/// The table with the name in it: unchanged where it occurs, else with a
/// fresh symbol at the end.
pub open spec fn named(table: Seq<Entry>, name: Seq<char>) -> Seq<Entry> {
    if position(table, name) < table.len() {
        table
    } else {
        table.push(fresh(name))
    }
}

/// The table after a definition of `name` at `addr`, met at `at`. A second
/// definition fails as `DuplicateLabel`, and the name stays in the table.
pub open spec fn defined(table: Seq<Entry>, name: Seq<char>, addr: Address, at: Location) -> (
    Seq<Entry>,
    core::result::Result<(), Failure>,
) {
    let t = named(table, name);
    let id = position(table, name) as int;
    if t[id].definition is Some {
        (t, Err(failure(at.source, at.line_number, ErrorKind::DuplicateLabel(name))))
    } else {
        (t.update(id, Entry { definition: Some(addr), uses: Seq::empty(), ..t[id] }), Ok(()))
    }
}

/// The table after a use of `name` at `at`: the use is recorded while the
/// label is undefined.
pub open spec fn used(table: Seq<Entry>, name: Seq<char>, at: Location) -> Seq<Entry> {
    let t = named(table, name);
    let id = position(table, name) as int;
    if t[id].definition is Some {
        t
    } else {
        t.update(id, Entry { uses: t[id].uses.push(at), ..t[id] })
    }
}

/// The table with the visibility of a symbol set. An id beyond the table
/// changes nothing.
pub open spec fn marked(table: Seq<Entry>, id: nat, kind: SymbolType) -> Seq<Entry> {
    if id < table.len() {
        table.update(id as int, Entry { kind, ..table[id as int] })
    } else {
        table
    }
}

/// No name occurs twice.
pub open spec fn distinct(table: Seq<Entry>) -> bool {
    forall|i: int, j: int|
        0 <= i < j < table.len() ==> (#[trigger] table[i]).name != (#[trigger] table[j]).name
}

/// A name that occurs in a table is found at its position, and nowhere
/// before it.
pub proof fn lemma_position(table: Seq<Entry>, name: Seq<char>)
    ensures
        position(table, name) <= table.len(),
        position(table, name) < table.len() ==> table[position(table, name) as int].name == name,
        forall|i: int| 0 <= i < position(table, name) ==> (#[trigger] table[i]).name != name,
    decreases table.len(),
{
    if table.len() > 0 && table[0].name != name {
        let rest = table.drop_first();
        lemma_position(rest, name);
        assert forall|i: int| 0 <= i < position(table, name) implies (#[trigger] table[i]).name
            != name by {
            if i > 0 {
                assert(table[i] == rest[i - 1]);
            }
        }
    }
}

/// The position of a name, from the first place where it is found.
pub proof fn lemma_position_is(table: Seq<Entry>, name: Seq<char>, k: nat)
    requires
        k <= table.len(),
        forall|i: int| 0 <= i < k ==> (#[trigger] table[i]).name != name,
        k < table.len() ==> table[k as int].name == name,
    ensures
        position(table, name) == k,
{
    lemma_position(table, name);
    let p = position(table, name);
    if p < k {
        assert(table[p as int].name != name);
    } else if p > k {
        assert(table[k as int].name == name);
    }
}

impl Symbols {
    /// An empty table.
    pub fn new() -> (s: Symbols)
        ensures
            s@ == Seq::<Entry>::empty(),
    {
        let s = Symbols { entries: Vec::new() };
        assert(s@ =~= Seq::<Entry>::empty());
        s
    }

    /// The number of symbols.
    pub fn size(&self) -> (n: usize)
        ensures
            n == self@.len(),
    {
        self.entries.len()
    }

    /// The id of a name, which enters the table if it is new.
    pub fn find_id(&mut self, lbl: &String) -> (id: usize)
        ensures
            id == position(old(self)@, lbl@),
            final(self)@ == named(old(self)@, lbl@),
            id < final(self)@.len(),
    {
        let mut i: usize = 0;
        while i < self.entries.len()
            invariant
                i <= self.entries@.len(),
                *self == *old(self),
                forall|j: int| 0 <= j < i ==> (#[trigger] self@[j]).name != lbl@,
            decreases self.entries@.len() - i,
        {
            if self.entries[i].name == *lbl {
                proof {
                    lemma_position_is(self@, lbl@, i as nat);
                }
                return i;
            }
            i = i + 1;
        }
        proof {
            lemma_position_is(self@, lbl@, i as nat);
        }
        self.entries.push(
            Symbol {
                name: lbl.clone(),
                kind: SymbolType::Internal,
                definition: None,
                uses: Vec::new(),
            },
        );
        proof {
            let last = self.entries@[i as int];
            assert(last@.uses =~= Seq::empty());
            assert(self@ =~= old(self)@.push(fresh(lbl@)));
        }
        i
    }

    /// Defines a label. A label that is defined already is a
    /// `DuplicateLabel` error at `loc`.
    pub fn set_label(&mut self, lbl: &String, addr: Address, loc: SourceLocation) -> (res:
        core::result::Result<(), Error>)
        ensures
            final(self)@ == defined(old(self)@, lbl@, addr, loc@).0,
            match defined(old(self)@, lbl@, addr, loc@).1 {
                Ok(_) => res is Ok,
                Err(f) => res matches Err(e) && e@ == f,
            },
    {
        let id = self.find_id(lbl);
        let ghost t = self@;
        if self.entries[id].definition.is_some() {
            return Err(
                Error::new(loc.source, loc.line_number, ErrorType::DuplicateLabel(lbl.clone())),
            );
        }
        self.entries[id].definition = Some(addr);
        self.entries[id].uses = Vec::new();
        proof {
            assert(self.entries@[id as int]@.uses =~= Seq::empty());
            assert(self@ =~= t.update(
                id as int,
                Entry { definition: Some(addr), uses: Seq::empty(), ..t[id as int] },
            ));
        }
        Ok(())
    }

    /// The id of a label that is used at `loc`.
    pub fn get_label(&mut self, lbl: &String, loc: SourceLocation) -> (id: usize)
        ensures
            id == position(old(self)@, lbl@),
            final(self)@ == used(old(self)@, lbl@, loc@),
            id < final(self)@.len(),
    {
        let id = self.find_id(lbl);
        let ghost t = self@;
        if self.entries[id].definition.is_none() {
            self.entries[id].uses.push(loc);
            proof {
                assert(self.entries@[id as int]@.uses =~= t[id as int].uses.push(loc@));
                assert(self@ =~= t.update(
                    id as int,
                    Entry { uses: t[id as int].uses.push(loc@), ..t[id as int] },
                ));
            }
        }
        id
    }

    /// Makes a symbol global.
    pub fn set_global(&mut self, id: usize)
        ensures
            final(self)@ == marked(old(self)@, id as nat, SymbolType::Global),
    {
        self.set_kind(id, SymbolType::Global)
    }

    /// Makes a symbol a reference.
    pub fn set_reference(&mut self, id: usize)
        ensures
            final(self)@ == marked(old(self)@, id as nat, SymbolType::Reference),
    {
        self.set_kind(id, SymbolType::Reference)
    }

    fn set_kind(&mut self, id: usize, kind: SymbolType)
        ensures
            final(self)@ == marked(old(self)@, id as nat, kind),
    {
        if id < self.entries.len() {
            let ghost t = self@;
            self.entries[id].kind = kind;
            proof {
                assert(self@ =~= t.update(id as int, Entry { kind, ..t[id as int] }));
            }
        }
    }
}

/// Ids are stable and names stay apart. Naming, defining, using and marking
/// a symbol keep every name at its place and add at most one name, at the
/// end; in a table where no name occurs twice none occurs twice afterwards;
/// and a name that is in the table is found at its id.
pub proof fn lemma_names_stay(
    table: Seq<Entry>,
    name: Seq<char>,
    addr: Address,
    at: Location,
    id: nat,
    kind: SymbolType,
)
    requires
        distinct(table),
    ensures
        distinct(named(table, name)),
        distinct(defined(table, name, addr, at).0),
        distinct(used(table, name, at)),
        distinct(marked(table, id, kind)),
        position(named(table, name), name) == position(table, name),
        position(table, name) < named(table, name).len(),
        forall|i: int|
            0 <= i < table.len() ==> {
                &&& (#[trigger] named(table, name)[i]).name == table[i].name
                &&& defined(table, name, addr, at).0[i].name == table[i].name
                &&& used(table, name, at)[i].name == table[i].name
                &&& marked(table, id, kind)[i].name == table[i].name
            },
        forall|i: int|
            0 <= i < table.len() ==> position(table, (#[trigger] table[i]).name) == i,
{
    lemma_position(table, name);
    let t = named(table, name);
    let p = position(table, name) as int;
    assert(distinct(t)) by {
        assert forall|i: int, j: int| 0 <= i < j < t.len() implies (#[trigger] t[i]).name != (
        #[trigger] t[j]).name by {
            if j < table.len() {
                assert(table[i].name != table[j].name);
            } else {
                assert(table[i].name != name);
            }
        }
    }
    lemma_position_is(t, name, p as nat);
    let d = defined(table, name, addr, at).0;
    assert forall|i: int, j: int| 0 <= i < j < d.len() implies (#[trigger] d[i]).name != (
    #[trigger] d[j]).name by {
        assert(t[i].name != t[j].name);
    }
    let u = used(table, name, at);
    assert forall|i: int, j: int| 0 <= i < j < u.len() implies (#[trigger] u[i]).name != (
    #[trigger] u[j]).name by {
        assert(t[i].name != t[j].name);
    }
    let m = marked(table, id, kind);
    assert forall|i: int, j: int| 0 <= i < j < m.len() implies (#[trigger] m[i]).name != (
    #[trigger] m[j]).name by {
        assert(table[i].name != table[j].name);
    }
    assert forall|i: int| 0 <= i < table.len() implies position(
        table,
        (#[trigger] table[i]).name,
    ) == i by {
        assert forall|k: int| 0 <= k < i implies (#[trigger] table[k]).name != table[i].name by {
            assert(table[k].name != table[i].name);
        }
        lemma_position_is(table, table[i].name, i as nat);
    }
}

} // verus!
