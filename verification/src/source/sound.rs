//! What the first pass keeps true, and what follows for an assembled
//! source: every label that a data line names has an address, and every
//! address lies in the segment of its label.

use crate::image::SegmentType;
use crate::source::err::Location;
use crate::source::instruction::{
    as_imm_wide, spec_jmp, spec_ldi, spec_load, spec_parse_byte_wide_imm, spec_parse_imm_wide,
    spec_parse_ins, spec_parse_two_wide_imm, spec_parse_wide_imm, spec_parse_wide_imm_byte,
    spec_parse_wide_imm_wide, spec_store, spec_to_address, Operand,
};
use crate::source::operand::{DataOperand, Wide};
use crate::source::err::{Failure, LineNumber};
use crate::source::lines::{line_outcome, next_number, Line};
use crate::source::process::{
    label_of, labels_of, laid_out, placed, spec_apply, spec_inner_process, spec_process, Assembly,
    Item, Label, Layout, Segment, UNRESOLVED,
};
use crate::source::symbols::{
    defined, lemma_position, marked, named, position, used, Address, Entry, SymbolType,
};
use vstd::prelude::*;

verus! {

/// Whether a table is another one grown: the symbols of `old` are there
/// under their ids, with their names and their definitions, at most `k`
/// symbols have come behind them, and those are undefined.
pub open spec fn grown(old: Seq<Entry>, new: Seq<Entry>, k: nat) -> bool {
    &&& old.len() <= new.len() <= old.len() + k
    &&& forall|i: int|
        0 <= i < old.len() ==> (#[trigger] new[i]).name == old[i].name && new[i].definition
            == old[i].definition
    &&& forall|i: int| old.len() <= i < new.len() ==> (#[trigger] new[i]).definition is None
}

/// Whether a wide immediate, where it is a label, names one of the first
/// `n` symbols.
pub open spec fn wide_below(w: Option<Wide>, n: nat) -> bool {
    match w {
        Some(Wide::Label(id)) => id < n,
        _ => true,
    }
}

/// Growing is transitive.
pub proof fn lemma_grown_twice(a: Seq<Entry>, b: Seq<Entry>, c: Seq<Entry>, j: nat, k: nat)
    requires
        grown(a, b, j),
        grown(b, c, k),
    ensures
        grown(a, c, j + k),
{
    assert forall|i: int| 0 <= i < a.len() implies (#[trigger] c[i]).name == a[i].name
        && c[i].definition == a[i].definition by {
        assert(b[i].name == a[i].name);
    }
    assert forall|i: int| a.len() <= i < c.len() implies (#[trigger] c[i]).definition is None by {
        if i < b.len() {
            assert(b[i].definition is None);
        }
    }
}

/// Naming, using and marking a symbol grow the table by at most one, and
/// the symbol is in the table afterwards.
pub proof fn lemma_table_grows(table: Seq<Entry>, name: Seq<char>, at: Location, kind: SymbolType)
    ensures
        grown(table, named(table, name), 1),
        grown(table, used(table, name, at), 1),
        grown(table, marked(used(table, name, at), position(table, name), kind), 1),
        position(table, name) < named(table, name).len(),
{
    lemma_position(table, name);
}

/// A sixteen-bit immediate grows the table by at most one, and a label in
/// it names a symbol of the grown table.
pub proof fn lemma_as_imm_wide(op: Operand, table: Seq<Entry>, at: Location)
    requires
        table.len() < usize::MAX,
    ensures
        grown(table, as_imm_wide(op, table, at).0, 1),
        wide_below(as_imm_wide(op, table, at).1, as_imm_wide(op, table, at).0.len()),
{
    match op {
        Operand::Label(l) => {
            lemma_table_grows(table, l, at, SymbolType::Internal);
        },
        _ => {},
    }
}

/// Whether the operands that a form gave, if it fit, name only symbols of
/// the table it left, which is the table it found grown by at most `k`.
pub open spec fn form_sound(
    table: Seq<Entry>,
    found: (Seq<Entry>, Option<DataOperand>),
    k: nat,
) -> bool {
    &&& grown(table, found.0, k)
    &&& found.1 matches Some(d) ==> wide_below(d.spec_immediate(), found.0.len())
}

/// Every form that takes a sixteen-bit immediate is sound.
pub proof fn lemma_forms(ops: Seq<Operand>, table: Seq<Entry>, at: Location)
    requires
        table.len() < usize::MAX,
    ensures
        form_sound(table, spec_parse_imm_wide(ops, table, at), 1),
        form_sound(table, spec_parse_wide_imm(ops, table, at), 1),
        form_sound(table, spec_parse_wide_imm_byte(ops, table, at), 1),
        form_sound(table, spec_parse_wide_imm_wide(ops, table, at), 1),
        form_sound(table, spec_parse_byte_wide_imm(ops, table, at), 1),
        form_sound(table, spec_parse_two_wide_imm(ops, table, at), 1),
{
    if ops.len() > 0 {
        lemma_as_imm_wide(ops[0], table, at);
    }
    if ops.len() > 1 {
        lemma_as_imm_wide(ops[1], table, at);
    }
    if ops.len() > 2 {
        lemma_as_imm_wide(ops[2], table, at);
    }
}

/// Whether the instruction that a mnemonic gave, if any, names only
/// symbols of the table it left, which is the table it found grown by at
/// most two.
pub open spec fn assembled_sound(
    table: Seq<Entry>,
    found: (Seq<Entry>, Result<(u8, DataOperand), Seq<char>>),
) -> bool {
    &&& grown(table, found.0, 2)
    &&& found.1 matches Ok(v) ==> wide_below(v.1.spec_immediate(), found.0.len())
}

/// The mnemonics that take labels are sound.
pub proof fn lemma_label_mnemonics(ops: Seq<Operand>, table: Seq<Entry>, at: Location)
    requires
        table.len() + 1 < usize::MAX,
    ensures
        forall|opcode: u8| assembled_sound(
            table,
            #[trigger] spec_to_address(opcode, ops, table, at),
        ),
        assembled_sound(table, spec_store(ops, table, at)),
        assembled_sound(table, spec_load(ops, table, at)),
        assembled_sound(table, spec_ldi(ops, table, at)),
        assembled_sound(table, spec_jmp(ops, table, at)),
{
    lemma_forms(ops, table, at);
    let t1 = spec_parse_wide_imm_byte(ops, table, at).0;
    lemma_forms(ops, t1, at);
    lemma_grown_twice(table, t1, spec_parse_wide_imm_wide(ops, t1, at).0, 1, 1);
    let t2 = spec_parse_byte_wide_imm(ops, table, at).0;
    lemma_forms(ops, t2, at);
    lemma_grown_twice(table, t2, spec_parse_two_wide_imm(ops, t2, at).0, 1, 1);
}

/// Every mnemonic is sound.
pub proof fn lemma_parse_ins(name: Seq<char>, ops: Seq<Operand>, table: Seq<Entry>, at: Location)
    requires
        table.len() + 1 < usize::MAX,
    ensures
        assembled_sound(table, spec_parse_ins(name, ops, table, at)),
{
    lemma_label_mnemonics(ops, table, at);
}

/// Whether a data line names only symbols among the first `n`.
pub open spec fn item_below(item: Item, n: nat) -> bool {
    match item {
        Item::Ins(_, d) => wide_below(d.spec_immediate(), n),
        Item::Wide(w) => wide_below(Some(w), n),
        Item::Raw(_) => true,
    }
}

/// Whether the lines of a segment name only symbols among the first `n`.
pub open spec fn lines_below(seg: Option<Segment>, n: nat) -> bool {
    match seg {
        Some(s) => forall|i: int| 0 <= i < s.lines.len() ==> item_below(#[trigger] s.lines[i], n),
        None => true,
    }
}

/// Whether the lines of every segment name only symbols among the first
/// `n`.
pub open spec fn layout_below(l: Layout, n: nat) -> bool {
    lines_below(l.text, n) && lines_below(l.rodata, n) && lines_below(l.data, n) && lines_below(
        l.heap,
        n,
    )
}

/// Whether an address lies in its segment as the segment stands: its
/// offset is at most the size.
pub open spec fn address_within(addr: Option<Address>, l: Layout) -> bool {
    match addr {
        Some(a) => a.1 <= l.size(a.0),
        None => true,
    }
}

/// Whether every definition lies in its segment.
pub open spec fn within(table: Seq<Entry>, l: Layout) -> bool {
    forall|i: int| 0 <= i < table.len() ==> address_within((#[trigger] table[i]).definition, l)
}

/// What the first pass keeps true: the data lines name symbols that the
/// table holds, and the definitions and the entry point lie in their
/// segments.
pub open spec fn sound(a: Assembly) -> bool {
    &&& layout_below(a.layout, a.table.len())
    &&& within(a.table, a.layout)
    &&& address_within(a.entry, a.layout)
}

/// Whether no segment of `new` is smaller than it is in `old`.
pub open spec fn not_smaller(old: Layout, new: Layout) -> bool {
    forall|st: SegmentType| old.size(st) <= #[trigger] new.size(st)
}

/// A line that names known symbols keeps the layout sound, and no segment
/// shrinks.
proof fn lemma_add_line(l: Layout, st: SegmentType, item: Item, size: u16, n: nat)
    requires
        layout_below(l, n),
        item_below(item, n),
        l.add_line(st, item, size) is Ok,
    ensures
        layout_below(l.add_line(st, item, size)->Ok_0, n),
        not_smaller(l, l.add_line(st, item, size)->Ok_0),
{
    let l2 = l.add_line(st, item, size)->Ok_0;
    assert forall|other: SegmentType| l.size(other) <= #[trigger] l2.size(other) by {}
}

/// More symbols and larger segments keep soundness.
proof fn lemma_carried(a: Assembly, table: Seq<Entry>, l: Layout, k: nat)
    requires
        sound(a),
        grown(a.table, table, k),
        not_smaller(a.layout, l),
    ensures
        within(table, l),
        address_within(a.entry, l),
        layout_below(a.layout, table.len()),
{
    assert forall|i: int| 0 <= i < table.len() implies address_within(
        (#[trigger] table[i]).definition,
        l,
    ) by {
        if i < a.table.len() {
            assert(table[i].definition == a.table[i].definition);
            assert(address_within(a.table[i].definition, a.layout));
            match table[i].definition {
                Some(addr) => {
                    assert(a.layout.size(addr.0) <= l.size(addr.0));
                },
                None => {},
            }
        }
    }
    match a.entry {
        Some(addr) => {
            assert(a.layout.size(addr.0) <= l.size(addr.0));
        },
        None => {},
    }
}

/// A table grown is grown for any larger bound.
proof fn lemma_grown_more(a: Seq<Entry>, b: Seq<Entry>, j: nat, k: nat)
    requires
        grown(a, b, j),
        j <= k,
    ensures
        grown(a, b, k),
{
}

/// A line keeps the first pass sound, and adds at most two symbols.
pub proof fn lemma_apply_sound(a: Assembly, source: Seq<char>, ln: LineNumber, line: Line)
    requires
        sound(a),
        a.table.len() + 1 < usize::MAX,
    ensures
        sound(spec_apply(a, source, ln, line).0),
        spec_apply(a, source, ln, line).0.table.len() <= a.table.len() + 2,
{
    let at = Location { source, line_number: ln };
    let here = Address(a.segment, a.layout.size(a.segment));
    let b = spec_apply(a, source, ln, line).0;
    assert(not_smaller(a.layout, a.layout));
    match line {
        Line::Label(name) => {
            lemma_table_grows(a.table, name, at, SymbolType::Internal);
            let t = named(a.table, name);
            lemma_carried(a, t, a.layout, 1);
            let id = position(a.table, name) as int;
            assert forall|i: int| 0 <= i < b.table.len() implies address_within(
                (#[trigger] b.table[i]).definition,
                b.layout,
            ) by {
                if i != id {
                    assert(address_within(t[i].definition, a.layout));
                }
            }
        },
        Line::Ins(name, ops) => {
            lemma_parse_ins(name, ops, a.table, at);
            let (table, r) = spec_parse_ins(name, ops, a.table, at);
            lemma_carried(a, table, a.layout, 2);
            match r {
                Ok((opcode, d)) => {
                    let item = Item::Ins(opcode, d);
                    let size = (1 + d.spec_size()) as u16;
                    if a.layout.add_line(a.segment, item, size) is Ok {
                        lemma_add_line(a.layout, a.segment, item, size, table.len());
                        lemma_carried(a, table, b.layout, 2);
                    }
                },
                Err(_) => {},
            }
        },
        Line::DirByte(v) => {
            let item = Item::Raw(seq![v]);
            if a.layout.add_line(a.segment, item, 1) is Ok {
                lemma_add_line(a.layout, a.segment, item, 1, a.table.len());
                lemma_grown_more(a.table, a.table, 0, 0);
                lemma_carried(a, a.table, b.layout, 0);
            }
        },
        Line::DirString(bytes) => {
            let item = Item::Raw(bytes);
            if bytes.len() <= 0xffff && a.layout.add_line(a.segment, item, bytes.len() as u16)
                is Ok {
                lemma_add_line(a.layout, a.segment, item, bytes.len() as u16, a.table.len());
                lemma_carried(a, a.table, b.layout, 0);
            }
        },
        Line::DirWide(w) => {
            match w {
                Ok(n) => {
                    let item = Item::Wide(Wide::Number(n));
                    if a.layout.add_line(a.segment, item, 2) is Ok {
                        lemma_add_line(a.layout, a.segment, item, 2, a.table.len());
                        lemma_carried(a, a.table, b.layout, 0);
                    }
                },
                Err(name) => {
                    lemma_table_grows(a.table, name, at, SymbolType::Internal);
                    let table = used(a.table, name, at);
                    let item = Item::Wide(Wide::Label(position(a.table, name) as usize));
                    lemma_carried(a, table, a.layout, 1);
                    if a.layout.add_line(a.segment, item, 2) is Ok {
                        lemma_add_line(a.layout, a.segment, item, 2, table.len());
                        lemma_carried(a, table, b.layout, 1);
                    }
                },
            }
        },
        Line::DirGlobal(name) => {
            lemma_table_grows(a.table, name, at, SymbolType::Global);
            lemma_carried(a, b.table, a.layout, 1);
        },
        Line::DirReference(name) => {
            lemma_table_grows(a.table, name, at, SymbolType::Reference);
            lemma_carried(a, b.table, a.layout, 1);
        },
        _ => {},
    }
}

/// The first pass stays sound.
pub proof fn lemma_inner_process_sound(
    a: Assembly,
    source: Seq<char>,
    ln: LineNumber,
    lines: Seq<Seq<char>>,
)
    requires
        sound(a),
        a.table.len() + 2 * lines.len() + 1 < usize::MAX,
    ensures
        sound(spec_inner_process(a, source, ln, lines).assembly),
    decreases lines.len(),
{
    if lines.len() > 0 {
        let n = next_number(ln);
        match line_outcome(source, n, lines[0]) {
            Err(_) => {},
            Ok(line) => {
                lemma_apply_sound(a, source, n, line);
                let (b, turn) = spec_apply(a, source, n, line);
                if turn == Ok::<Option<Seq<char>>, Failure>(None) {
                    lemma_inner_process_sound(b, source, n, lines.drop_first());
                }
            },
        }
    }
}

/// Laying segments out changes where they start and nothing else.
proof fn lemma_laid_out(l: Layout)
    requires
        laid_out(l) is Some,
    ensures
        forall|st: SegmentType|
            {
                let placed = #[trigger] (laid_out(l)->Some_0).get(st);
                match l.get(st) {
                    Some(seg) => placed matches Some(p) && p.lines == seg.lines && p.size
                        == seg.size,
                    None => placed is None,
                }
            },
{
    assert forall|st: SegmentType|
        {
            let placed = #[trigger] (laid_out(l)->Some_0).get(st);
            match l.get(st) {
                Some(seg) => placed matches Some(p) && p.lines == seg.lines && p.size == seg.size,
                None => placed is None,
            }
        } by {
        let e1 = placed(l.text, 0x100)->Some_0.1;
        let e2 = placed(l.rodata, e1)->Some_0.1;
        let e3 = placed(l.data, e2)->Some_0.1;
    }
}

/// Where the symbols become labels, each symbol becomes the label with its
/// id.
proof fn lemma_labels_of(table: Seq<Entry>, layout: Layout, k: nat)
    requires
        k <= table.len(),
        labels_of(table, layout, k) is Ok,
    ensures
        labels_of(table, layout, k)->Ok_0.len() == k,
        forall|i: int|
            0 <= i < k ==> label_of(table[i], layout) == Ok::<Label, Failure>(
                #[trigger] labels_of(table, layout, k)->Ok_0[i],
            ),
    decreases k,
{
    if k > 0 {
        lemma_labels_of(table, layout, (k - 1) as nat);
    }
}

/// Whether a label is unresolved, or its address lies in its segment: not
/// before its start and not behind its end.
pub open spec fn label_placed(label: Label, layout: Layout) -> bool {
    ||| label.1 == SymbolType::Reference && label.2 == SegmentType::Unknown && label.3
        == UNRESOLVED
    ||| layout.start(label.2) <= label.3 <= layout.start(label.2) + layout.size(label.2)
}

/// Labels have addresses, and addresses lie in their segments.
///
/// Where a source of fewer than 2^30 lines assembles, every label that a
/// data line names is among the labels of the image, so emission finds an
/// address for it; and every label of the image is unresolved or lies in
/// its segment, as does the entry point in some segment.
pub proof fn lemma_process_labels(source: Seq<char>, ln: LineNumber, lines: Seq<Seq<char>>)
    requires
        spec_process(source, ln, lines) is Ok,
        lines.len() < 0x4000_0000,
    ensures
        ({
            let p = spec_process(source, ln, lines)->Ok_0;
            &&& layout_below(p.layout, p.labels.len())
            &&& forall|i: int|
                0 <= i < p.labels.len() ==> label_placed(#[trigger] p.labels[i], p.layout)
            &&& p.entry matches Some(e) ==> exists|st: SegmentType|
                p.layout.start(st) <= e <= p.layout.start(st) + #[trigger] p.layout.size(st)
        }),
{
    let start = Assembly {
        segment: SegmentType::Unknown,
        layout: Layout::empty(),
        entry: None,
        table: Seq::empty(),
    };
    lemma_inner_process_sound(start, source, ln, lines);
    let a = spec_inner_process(start, source, ln, lines).assembly;
    let p = spec_process(source, ln, lines)->Ok_0;
    lemma_laid_out(a.layout);
    lemma_labels_of(a.table, p.layout, a.table.len());
    assert forall|st: SegmentType| p.layout.size(st) == a.layout.size(st) by {
        let placed = p.layout.get(st);
    }
    assert(layout_below(p.layout, p.labels.len())) by {
        let t = p.layout.get(SegmentType::Text);
        let r = p.layout.get(SegmentType::RoData);
        let d = p.layout.get(SegmentType::Data);
        let h = p.layout.get(SegmentType::Heap);
    }
    assert forall|i: int| 0 <= i < p.labels.len() implies label_placed(
        #[trigger] p.labels[i],
        p.layout,
    ) by {
        assert(label_of(a.table[i], p.layout) == Ok::<Label, Failure>(p.labels[i]));
        assert(address_within(a.table[i].definition, a.layout));
        match a.table[i].definition {
            Some(addr) => {
                assert(p.layout.size(addr.0) == a.layout.size(addr.0));
            },
            None => {},
        }
    }
    match a.entry {
        Some(addr) => {
            assert(p.layout.size(addr.0) == a.layout.size(addr.0));
        },
        None => {},
    }
}

} // verus!
