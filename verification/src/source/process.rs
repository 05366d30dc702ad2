//! The two passes of the assembler.
//!
//! The first pass goes through the lines of a source: it gathers the data
//! lines of each segment, counts the segment sizes, and records where
//! labels are defined and used. The second lays the segments out and
//! turns every label into an address.

use crate::image::{align, spec_align, SegmentType, SEGMENT_ALIGNMENT};
use crate::source::err::{
    failure, locations, Error, ErrorKind, ErrorType, Failure, LineNumber, Location, SourceLocation,
};
use crate::source::instruction::{parse_ins, spec_parse_ins};
use crate::source::lines::{line_outcome, next_number, Line, SourceLine, SourceLines};
use crate::source::operand::{DataOperand, Wide};
use crate::source::symbols::{
    defined, marked, position, used, Address, Entry, SymbolType, Symbols,
};
use crate::source::text::is;
use vstd::prelude::*;

verus! {

/// One line of a segment: an instruction, a wide value that may be a label,
/// or bytes as they are.
#[derive(Debug, Clone)]
pub enum DataLine {
    Ins(u8, DataOperand),
    Wide(Wide),
    Raw(Vec<u8>),
}

/// One line of a segment, as plain values.
pub enum Item {
    Ins(u8, DataOperand),
    Wide(Wide),
    Raw(Seq<u8>),
}

impl View for DataLine {
    type V = Item;

    open spec fn view(&self) -> Item {
        match self {
            DataLine::Ins(op, d) => Item::Ins(*op, *d),
            DataLine::Wide(w) => Item::Wide(*w),
            DataLine::Raw(b) => Item::Raw(b@),
        }
    }
}

/// The lines of one segment, their size in bytes, and where the segment
/// starts once the image is laid out.
#[derive(Debug, Clone)]
pub struct DataLineSegment {
    pub lines: Vec<DataLine>,
    pub size: u16,
    pub start: u16,
}

/// One segment, as plain values.
pub struct Segment {
    pub lines: Seq<Item>,
    pub size: u16,
    pub start: u16,
}

impl View for DataLineSegment {
    type V = Segment;

    open spec fn view(&self) -> Segment {
        Segment { lines: self.lines@.map_values(|l: DataLine| l@), size: self.size, start: self.start }
    }
}

/// The segments of an image. A segment is there once a line was added to
/// it.
#[derive(Debug, Clone)]
pub struct SegmentTable {
    pub text: Option<DataLineSegment>,
    pub rodata: Option<DataLineSegment>,
    pub data: Option<DataLineSegment>,
    pub heap: Option<DataLineSegment>,
}

/// The segments of an image, as plain values.
pub struct Layout {
    pub text: Option<Segment>,
    pub rodata: Option<Segment>,
    pub data: Option<Segment>,
    pub heap: Option<Segment>,
}

/// A segment that may not be there, as plain values.
pub open spec fn slot(s: Option<DataLineSegment>) -> Option<Segment> {
    match s {
        Some(seg) => Some(seg@),
        None => None,
    }
}

impl View for SegmentTable {
    type V = Layout;

    open spec fn view(&self) -> Layout {
        Layout {
            text: slot(self.text),
            rodata: slot(self.rodata),
            data: slot(self.data),
            heap: slot(self.heap),
        }
    }
}

impl Layout {
    /// The segment of a kind, if it is there. There never is an `Unknown`
    /// one.
    pub open spec fn get(self, st: SegmentType) -> Option<Segment> {
        match st {
            SegmentType::Unknown => None,
            SegmentType::Text => self.text,
            SegmentType::RoData => self.rodata,
            SegmentType::Data => self.data,
            SegmentType::Heap => self.heap,
        }
    }

    /// The layout with the segment of a kind replaced.
    pub open spec fn with(self, st: SegmentType, seg: Segment) -> Layout {
        match st {
            SegmentType::Unknown => self,
            SegmentType::Text => Layout { text: Some(seg), ..self },
            SegmentType::RoData => Layout { rodata: Some(seg), ..self },
            SegmentType::Data => Layout { data: Some(seg), ..self },
            SegmentType::Heap => Layout { heap: Some(seg), ..self },
        }
    }

    /// The size of a segment so far: 0 where it is not there.
    pub open spec fn size(self, st: SegmentType) -> u16 {
        match self.get(st) {
            Some(seg) => seg.size,
            None => 0,
        }
    }

    /// Where a segment starts: 0 where it is not there.
    pub open spec fn start(self, st: SegmentType) -> u16 {
        match self.get(st) {
            Some(seg) => seg.start,
            None => 0,
        }
    }

    /// No segment at all.
    pub open spec fn empty() -> Layout {
        Layout { text: None, rodata: None, data: None, heap: None }
    }

    /// The layout with a line of `size` bytes added to a segment. There is
    /// none where no segment was started, or the segment would grow beyond
    /// the sixteen-bit address space.
    pub open spec fn add_line(self, st: SegmentType, item: Item, size: u16) -> Result<
        Layout,
        Seq<char>,
    > {
        if st == SegmentType::Unknown {
            Err("no segment was started"@)
        } else if self.size(st) + size > 0xffff {
            Err("segment exceeds the address space"@)
        } else {
            Ok(
                match self.get(st) {
                    Some(seg) => self.with(
                        st,
                        Segment {
                            lines: seg.lines.push(item),
                            size: (seg.size + size) as u16,
                            start: seg.start,
                        },
                    ),
                    None => self.with(st, Segment { lines: seq![item], size, start: 0 }),
                },
            )
        }
    }
}

/// Adds a line to a segment that may not be there yet.
fn put(place: &mut Option<DataLineSegment>, line: DataLine, size: u16) -> (fits: bool)
    ensures
        fits == (match slot(*old(place)) {
            Some(seg) => seg.size + size <= 0xffff,
            None => true,
        }),
        fits ==> slot(*final(place)) == Some(
            match slot(*old(place)) {
                Some(seg) => Segment {
                    lines: seg.lines.push(line@),
                    size: (seg.size + size) as u16,
                    start: seg.start,
                },
                None => Segment { lines: seq![line@], size, start: 0 },
            },
        ),
        !fits ==> *final(place) == *old(place),
{
    match place {
        Some(seg) => {
            if seg.size as u32 + size as u32 > 0xffff {
                return false;
            }
            let ghost before = seg@;
            let ghost item = line@;
            seg.lines.push(line);
            seg.size = seg.size + size;
            assert(seg@.lines =~= before.lines.push(item));
            true
        },
        None => {
            let ghost item = line@;
            let mut lines: Vec<DataLine> = Vec::new();
            lines.push(line);
            let seg = DataLineSegment { lines, size, start: 0 };
            assert(seg@.lines =~= seq![item]);
            *place = Some(seg);
            true
        },
    }
}

impl SegmentTable {
    /// No segment at all.
    pub fn new() -> (t: SegmentTable)
        ensures
            t@ == Layout::empty(),
    {
        SegmentTable { text: None, rodata: None, data: None, heap: None }
    }

    /// The segment of a kind, if it is there.
    pub fn get(&self, st: SegmentType) -> (seg: Option<&DataLineSegment>)
        ensures
            match self@.get(st) {
                Some(s) => seg matches Some(found) && found@ == s,
                None => seg is None,
            },
    {
        match st {
            SegmentType::Unknown => None,
            SegmentType::Text => self.text.as_ref(),
            SegmentType::RoData => self.rodata.as_ref(),
            SegmentType::Data => self.data.as_ref(),
            SegmentType::Heap => self.heap.as_ref(),
        }
    }

    /// Where a segment starts: 0 where it is not there.
    pub fn start(&self, st: SegmentType) -> (start: u16)
        ensures
            start == self@.start(st),
    {
        match self.get(st) {
            Some(seg) => seg.start,
            None => 0,
        }
    }
}

/// What the first pass has gathered: the segments, and where execution is
/// to begin, if a source said so.
#[derive(Debug, Clone)]
pub struct ProcessState {
    pub dls: SegmentTable,
    pub entry: Option<Address>,
}

impl ProcessState {
    /// The first pass before its first line: no segment, no entry point.
    pub fn new() -> (s: ProcessState)
        ensures
            s.dls@ == Layout::empty(),
            s.entry is None,
    {
        ProcessState { dls: SegmentTable::new(), entry: None }
    }

    /// The size of a segment so far.
    pub fn get_size(&self, st: SegmentType) -> (size: u16)
        ensures
            size == self.dls@.size(st),
    {
        match self.dls.get(st) {
            Some(seg) => seg.size,
            None => 0,
        }
    }

    /// Adds a line of `size` bytes to a segment. Where that fails nothing
    /// changes.
    pub fn add_line(&mut self, st: SegmentType, line: DataLine, size: u16) -> (r: Result<
        (),
        &'static str,
    >)
        ensures
            final(self).entry == old(self).entry,
            match old(self).dls@.add_line(st, line@, size) {
                Ok(layout) => r is Ok && final(self).dls@ == layout,
                Err(m) => r matches Err(e) && e@ == m && final(self).dls@ == old(self).dls@,
            },
    {
        let fits = match st {
            SegmentType::Unknown => {
                return Err("no segment was started");
            },
            SegmentType::Text => put(&mut self.dls.text, line, size),
            SegmentType::RoData => put(&mut self.dls.rodata, line, size),
            SegmentType::Data => put(&mut self.dls.data, line, size),
            SegmentType::Heap => put(&mut self.dls.heap, line, size),
        };
        if fits {
            Ok(())
        } else {
            Err("segment exceeds the address space")
        }
    }
}

/// The first pass at some line, as plain values: the segment that lines go
/// to, the segments so far, the entry point, and the symbols.
pub struct Assembly {
    pub segment: SegmentType,
    pub layout: Layout,
    pub entry: Option<Address>,
    pub table: Seq<Entry>,
}

/// The segment that a `.seg` directive names.
pub open spec fn spec_segment_named(name: Seq<char>) -> Option<SegmentType> {
    if name == "data"@ {
        Some(SegmentType::Data)
    } else if name == "rodata"@ {
        Some(SegmentType::RoData)
    } else if name == "text"@ {
        Some(SegmentType::Text)
    } else if name == "heap"@ {
        Some(SegmentType::Heap)
    } else {
        None
    }
}

/// The segment that a `.seg` directive names.
pub fn segment_named(name: &String) -> (st: Option<SegmentType>)
    ensures
        st == spec_segment_named(name@),
{
    if is(name, "data") {
        Some(SegmentType::Data)
    } else if is(name, "rodata") {
        Some(SegmentType::RoData)
    } else if is(name, "text") {
        Some(SegmentType::Text)
    } else if is(name, "heap") {
        Some(SegmentType::Heap)
    } else {
        None
    }
}

/// What the first pass does with a line: go on, read another source, or
/// stop with a failure.
pub type Turn = Result<Option<Seq<char>>, Failure>;

/// The first pass after a data line was added, or the failure where it
/// does not fit.
pub open spec fn added(
    a: Assembly,
    source: Seq<char>,
    ln: LineNumber,
    item: Item,
    size: u16,
) -> (Assembly, Turn) {
    match a.layout.add_line(a.segment, item, size) {
        Ok(layout) => (Assembly { layout, ..a }, Ok(None)),
        Err(m) => (a, Err(failure(source, ln, ErrorKind::Other(m, Seq::empty())))),
    }
}

/// What line `ln` of a source does to the first pass.
///
/// A `.seg` directive changes the segment that lines go to. `.entry` puts
/// the entry point at the end of that segment as it stands, once. A label
/// is defined there. An instruction, a byte, a wide value and a string
/// become data lines of the segment. `.global` and `.reference` use the
/// label they name and set how it is seen. `.include` asks for another
/// source, by the path as written.
pub open spec fn spec_apply(a: Assembly, source: Seq<char>, ln: LineNumber, line: Line) -> (
    Assembly,
    Turn,
) {
    let at = Location { source, line_number: ln };
    let here = Address(a.segment, a.layout.size(a.segment));
    match line {
        Line::DirSeg(name) => match spec_segment_named(name) {
            Some(st) => (Assembly { segment: st, ..a }, Ok(None)),
            None => (a, Err(failure(source, ln, ErrorKind::InvalidOperand(name)))),
        },
        Line::DirEntry => if a.entry is Some {
            (a, Err(failure(source, ln, ErrorKind::DoubleEntry)))
        } else {
            (Assembly { entry: Some(here), ..a }, Ok(None))
        },
        Line::Label(name) => {
            let (table, r) = defined(a.table, name, here, at);
            match r {
                Ok(_) => (Assembly { table, ..a }, Ok(None)),
                Err(f) => (Assembly { table, ..a }, Err(f)),
            }
        },
        Line::Ins(name, ops) => {
            let (table, r) = spec_parse_ins(name, ops, a.table, at);
            let b = Assembly { table, ..a };
            match r {
                Err(m) => (b, Err(failure(source, ln, ErrorKind::Other(m, name)))),
                Ok((opcode, d)) => added(
                    b,
                    source,
                    ln,
                    Item::Ins(opcode, d),
                    (1 + d.spec_size()) as u16,
                ),
            }
        },
        Line::DirByte(v) => added(a, source, ln, Item::Raw(seq![v]), 1),
        Line::DirWide(w) => match w {
            Ok(n) => added(a, source, ln, Item::Wide(Wide::Number(n)), 2),
            Err(name) => added(
                Assembly { table: used(a.table, name, at), ..a },
                source,
                ln,
                Item::Wide(Wide::Label(position(a.table, name) as usize)),
                2,
            ),
        },
        Line::DirString(bytes) => if bytes.len() > 0xffff {
            (
                a,
                Err(
                    failure(
                        source,
                        ln,
                        ErrorKind::Other("segment exceeds the address space"@, Seq::empty()),
                    ),
                ),
            )
        } else {
            added(a, source, ln, Item::Raw(bytes), bytes.len() as u16)
        },
        Line::DirInclude(path) => (a, Ok(Some(path))),
        Line::DirGlobal(name) => (
            Assembly {
                table: marked(used(a.table, name, at), position(a.table, name), SymbolType::Global),
                ..a
            },
            Ok(None),
        ),
        Line::DirReference(name) => (
            Assembly {
                table: marked(
                    used(a.table, name, at),
                    position(a.table, name),
                    SymbolType::Reference,
                ),
                ..a
            },
            Ok(None),
        ),
        Line::Comment => (a, Ok(None)),
    }
}

/// Where the first pass stands after a run over lines.
pub struct Run {
    pub assembly: Assembly,
    /// The number of the last line that was read.
    pub line_number: LineNumber,
    /// The lines that were not read.
    pub remaining: Seq<Seq<char>>,
    pub turn: Turn,
}

/// The first pass over the lines of a source, from the line behind `ln`
/// on, up to the end of the source, the first `.include`, or the first
/// failure.
pub open spec fn spec_inner_process(
    a: Assembly,
    source: Seq<char>,
    ln: LineNumber,
    lines: Seq<Seq<char>>,
) -> Run
    decreases lines.len(),
{
    if lines.len() == 0 {
        Run { assembly: a, line_number: ln, remaining: lines, turn: Ok(None) }
    } else {
        let n = next_number(ln);
        let rest = lines.drop_first();
        match line_outcome(source, n, lines[0]) {
            Err(f) => Run { assembly: a, line_number: n, remaining: rest, turn: Err(f) },
            Ok(line) => {
                let (b, turn) = spec_apply(a, source, n, line);
                if turn == Ok::<Option<Seq<char>>, Failure>(None) {
                    spec_inner_process(b, source, n, rest)
                } else {
                    Run { assembly: b, line_number: n, remaining: rest, turn }
                }
            },
        }
    }
}

/// The first pass, as plain values.
pub open spec fn assembly(segment: SegmentType, state: ProcessState, symbols: Symbols) -> Assembly {
    Assembly { segment, layout: state.dls@, entry: state.entry, table: symbols@ }
}

/// Whether an outcome of the first pass is the one stated.
pub open spec fn matches_turn(r: Result<Option<String>, Error>, turn: Turn) -> bool {
    match turn {
        Ok(None) => r matches Ok(None),
        Ok(Some(path)) => r matches Ok(Some(p)) && p@ == path,
        Err(f) => r matches Err(e) && e@ == f,
    }
}

fn append_line(
    state: &mut ProcessState,
    segment: SegmentType,
    src: &String,
    ln: LineNumber,
    line: DataLine,
    size: u16,
    Ghost(table): Ghost<Seq<Entry>>,
) -> (r: Result<Option<String>, Error>)
    ensures
        ({
            let a = Assembly {
                segment,
                layout: old(state).dls@,
                entry: old(state).entry,
                table,
            };
            let (b, turn) = added(a, src@, ln, line@, size);
            &&& matches_turn(r, turn)
            &&& final(state).dls@ == b.layout
            &&& final(state).entry == b.entry
        }),
{
    match state.add_line(segment, line, size) {
        Ok(_) => Ok(None),
        Err(m) => Err(Error::new(src.clone(), ln, ErrorType::Other(m, String::new()))),
    }
}

/// Applies one line to the first pass.
pub fn apply_line(
    line: SourceLine,
    ln: LineNumber,
    src: &String,
    segment: &mut SegmentType,
    state: &mut ProcessState,
    symbols: &mut Symbols,
) -> (r: Result<Option<String>, Error>)
    ensures
        ({
            let (b, turn) = spec_apply(
                assembly(*old(segment), *old(state), *old(symbols)),
                src@,
                ln,
                line@,
            );
            &&& assembly(*final(segment), *final(state), *final(symbols)) == b
            &&& matches_turn(r, turn)
        }),
{
    let loc = SourceLocation { source: src.clone(), line_number: ln };
    let here = Address(*segment, state.get_size(*segment));
    match line {
        SourceLine::DirSeg(seg) => {
            match segment_named(&seg) {
                Some(st) => {
                    *segment = st;
                    Ok(None)
                },
                None => Err(Error::new(src.clone(), ln, ErrorType::InvalidOperand(seg))),
            }
        },
        SourceLine::DirEntry => {
            if state.entry.is_some() {
                return Err(Error::new(src.clone(), ln, ErrorType::DoubleEntry));
            }
            state.entry = Some(here);
            Ok(None)
        },
        SourceLine::Label(s) => {
            match symbols.set_label(&s, here, loc) {
                Ok(_) => Ok(None),
                Err(e) => Err(e),
            }
        },
        SourceLine::Ins(s, ops) => {
            match parse_ins(&s, &ops, symbols, &loc) {
                Err(m) => Err(Error::new(src.clone(), ln, ErrorType::Other(m, s))),
                Ok((opcode, dat_op)) => append_line(
                    state,
                    *segment,
                    src,
                    ln,
                    DataLine::Ins(opcode, dat_op),
                    1 + dat_op.size(),
                    Ghost(symbols@),
                ),
            }
        },
        SourceLine::DirByte(b) => {
            let mut bytes: Vec<u8> = Vec::new();
            bytes.push(b);
            assert(bytes@ =~= seq![b]);
            append_line(state, *segment, src, ln, DataLine::Raw(bytes), 1, Ghost(symbols@))
        },
        SourceLine::DirWide(w) => {
            let wide = match w {
                Ok(w) => Wide::Number(w),
                Err(l) => Wide::Label(symbols.get_label(&l, loc)),
            };
            append_line(state, *segment, src, ln, DataLine::Wide(wide), 2, Ghost(symbols@))
        },
        SourceLine::DirString(s) => {
            if s.len() > 0xffff {
                return Err(
                    Error::new(
                        src.clone(),
                        ln,
                        ErrorType::Other("segment exceeds the address space", String::new()),
                    ),
                );
            }
            let size = s.len() as u16;
            append_line(state, *segment, src, ln, DataLine::Raw(s), size, Ghost(symbols@))
        },
        SourceLine::DirInclude(path) => Ok(Some(path)),
        SourceLine::DirGlobal(l) => {
            let id = symbols.get_label(&l, loc);
            symbols.set_global(id);
            Ok(None)
        },
        SourceLine::DirReference(l) => {
            let id = symbols.get_label(&l, loc);
            symbols.set_reference(id);
            Ok(None)
        },
        SourceLine::Comment => Ok(None),
    }
}

/// The first pass over the lines of a source, up to its end, its next
/// `.include`, or the first failure.
///
/// Behind an `.include` the caller reads the source that the path names,
/// runs the first pass over it with the same state and symbols, beginning
/// in the `Unknown` segment, and then goes on with this source.
pub fn inner_process(
    lines: &mut SourceLines,
    segment: &mut SegmentType,
    state: &mut ProcessState,
    symbols: &mut Symbols,
) -> (r: Result<Option<String>, Error>)
    ensures
        ({
            let run = spec_inner_process(
                assembly(*old(segment), *old(state), *old(symbols)),
                old(lines).name(),
                old(lines).line_number(),
                old(lines).remaining(),
            );
            &&& assembly(*final(segment), *final(state), *final(symbols)) == run.assembly
            &&& final(lines).name() == old(lines).name()
            &&& final(lines).line_number() == run.line_number
            &&& final(lines).remaining() == run.remaining
            &&& matches_turn(r, run.turn)
        }),
{
    let src = lines.source().clone();
    loop
        invariant
            src@ == lines.name(),
            lines.name() == old(lines).name(),
            spec_inner_process(
                assembly(*old(segment), *old(state), *old(symbols)),
                old(lines).name(),
                old(lines).line_number(),
                old(lines).remaining(),
            ) == spec_inner_process(
                assembly(*segment, *state, *symbols),
                lines.name(),
                lines.line_number(),
                lines.remaining(),
            ),
        decreases lines.remaining().len(),
    {
        match lines.next() {
            None => {
                return Ok(None);
            },
            Some(Err(e)) => {
                return Err(e);
            },
            Some(Ok((ln, line))) => {
                match apply_line(line, ln, &src, segment, state, symbols) {
                    Ok(None) => {},
                    Ok(Some(path)) => {
                        return Ok(Some(path));
                    },
                    Err(e) => {
                        return Err(e);
                    },
                }
            },
        }
    }
}

/// A label of an image: its name, how it is seen, its segment and its
/// address.
pub type Label = (Seq<char>, SymbolType, SegmentType, u16);

/// What the assembler makes of a source: the labels with their addresses,
/// the segments with their places, and the address of the entry point, if
/// there is one.
#[derive(Debug, Clone)]
pub struct ProcessedSource {
    pub labels: Vec<(String, SymbolType, SegmentType, u16)>,
    pub dls: SegmentTable,
    pub entry: Option<u16>,
}

/// What the assembler makes of a source, as plain values.
pub struct Processed {
    pub labels: Seq<Label>,
    pub layout: Layout,
    pub entry: Option<u16>,
}

/// The labels of a list, as plain values.
pub open spec fn label_views(labels: Seq<(String, SymbolType, SegmentType, u16)>) -> Seq<Label> {
    labels.map_values(|l: (String, SymbolType, SegmentType, u16)| (l.0@, l.1, l.2, l.3))
}

impl View for ProcessedSource {
    type V = Processed;

    open spec fn view(&self) -> Processed {
        Processed { labels: label_views(self.labels@), layout: self.dls@, entry: self.entry }
    }
}

/// The address that stands for a label which another image defines.
pub const UNRESOLVED: u16 = 0xfaff;

/// Placing a segment behind `last_end`: it starts at the next multiple of
/// the segment alignment, and the next segment goes behind its end. A
/// segment that is not there takes no place. There is no placing where the
/// segment would reach beyond the sixteen-bit address space.
pub open spec fn placed(seg: Option<Segment>, last_end: int) -> Option<(Option<Segment>, int)> {
    match seg {
        None => Some((None, last_end)),
        Some(s) => {
            let start = spec_align(last_end, 0x100);
            if start + s.size > 0xffff {
                None
            } else {
                Some((Some(Segment { start: start as u16, ..s }), start + s.size))
            }
        },
    }
}

/// The segments in their places: text, read-only data, data and heap, in
/// this order, the first at the segment alignment.
pub open spec fn laid_out(l: Layout) -> Option<Layout> {
    match placed(l.text, 0x100) {
        None => None,
        Some((text, e1)) => match placed(l.rodata, e1) {
            None => None,
            Some((rodata, e2)) => match placed(l.data, e2) {
                None => None,
                Some((data, e3)) => match placed(l.heap, e3) {
                    None => None,
                    Some((heap, _)) => Some(Layout { text, rodata, data, heap }),
                },
            },
        },
    }
}

/// The failure for a label that is used and never defined: it is anchored
/// at the last use, and the earlier uses are chained, the latest first.
pub open spec fn undefined(name: Seq<char>, uses: Seq<Location>) -> Failure {
    if uses.len() == 0 {
        failure(Seq::empty(), 0, ErrorKind::UndefinedLabel(name))
    } else {
        Failure {
            at: uses.last(),
            kind: ErrorKind::UndefinedLabel(name),
            chain: Seq::new((uses.len() - 1) as nat, |i: int| uses[uses.len() - 2 - i]),
        }
    }
}

/// The failure that is anchored at no line of a source.
pub open spec fn general(message: Seq<char>, subject: Seq<char>) -> Failure {
    failure("<src>"@, 0, ErrorKind::Other(message, subject))
}

/// The label that a symbol becomes.
///
/// A defined symbol gets the start of its segment added to its offset; it
/// must not be a reference. An undefined symbol that is global or a
/// reference becomes a reference at the unresolved address; an undefined
/// internal symbol is a failure.
pub open spec fn label_of(e: Entry, layout: Layout) -> Result<Label, Failure> {
    match e.definition {
        Some(addr) => if e.kind == SymbolType::Reference {
            Err(general("symbol is declared as reference but defined"@, e.name))
        } else if addr.1 + layout.start(addr.0) > 0xffff {
            Err(general("label lies beyond the address space"@, e.name))
        } else {
            Ok((e.name, e.kind, addr.0, (addr.1 + layout.start(addr.0)) as u16))
        },
        None => if e.kind == SymbolType::Internal {
            Err(undefined(e.name, e.uses))
        } else {
            Ok((e.name, SymbolType::Reference, SegmentType::Unknown, UNRESOLVED))
        },
    }
}

/// The labels that the first `k` symbols become, or the failure of the
/// first of them that fails.
pub open spec fn labels_of(table: Seq<Entry>, layout: Layout, k: nat) -> Result<Seq<Label>, Failure>
    decreases k,
{
    if k == 0 {
        Ok(Seq::empty())
    } else {
        match labels_of(table, layout, (k - 1) as nat) {
            Err(f) => Err(f),
            Ok(front) => match label_of(table[k - 1], layout) {
                Err(f) => Err(f),
                Ok(l) => Ok(front.push(l)),
            },
        }
    }
}

/// The second pass: the segments are laid out, every symbol becomes a
/// label, and the entry point becomes an address.
pub open spec fn spec_finish(a: Assembly) -> Result<Processed, Failure> {
    match laid_out(a.layout) {
        None => Err(general("image exceeds the address space"@, Seq::empty())),
        Some(layout) => match labels_of(a.table, layout, a.table.len()) {
            Err(f) => Err(f),
            Ok(labels) => match a.entry {
                None => Ok(Processed { labels, layout, entry: None }),
                Some(addr) => if addr.1 + layout.start(addr.0) > 0xffff {
                    Err(general("entry lies beyond the address space"@, Seq::empty()))
                } else {
                    Ok(
                        Processed {
                            labels,
                            layout,
                            entry: Some((addr.1 + layout.start(addr.0)) as u16),
                        },
                    )
                },
            },
        },
    }
}

/// What the assembler makes of the lines of one source that includes no
/// other: both passes. An `.include` is an `IoError` at its line.
pub open spec fn spec_process(source: Seq<char>, ln: LineNumber, lines: Seq<Seq<char>>) -> Result<
    Processed,
    Failure,
> {
    let start = Assembly {
        segment: SegmentType::Unknown,
        layout: Layout::empty(),
        entry: None,
        table: Seq::empty(),
    };
    let run = spec_inner_process(start, source, ln, lines);
    match run.turn {
        Err(f) => Err(f),
        Ok(Some(_)) => Err(failure(source, run.line_number, ErrorKind::IoError)),
        Ok(None) => spec_finish(run.assembly),
    }
}

fn place(seg: &mut Option<DataLineSegment>, last_end: u16) -> (r: Option<u16>)
    ensures
        match placed(slot(*old(seg)), last_end as int) {
            None => r is None,
            Some((s, e)) => r == Some(e as u16) && e <= 0xffff && slot(*final(seg)) == s,
        },
{
    match seg {
        None => Some(last_end),
        Some(s) => {
            let start = align(last_end, SEGMENT_ALIGNMENT)?;
            if start as u32 + s.size as u32 > 0xffff {
                return None;
            }
            s.start = start;
            Some(start + s.size)
        },
    }
}

fn general_error(message: &'static str, subject: String) -> (e: Error)
    ensures
        e@ == general(message@, subject@),
{
    Error::new("<src>".to_owned(), 0, ErrorType::Other(message, subject))
}

fn undefined_error(name: &String, uses: &Vec<SourceLocation>) -> (e: Error)
    ensures
        e@ == undefined(name@, locations(uses@)),
{
    let n = uses.len();
    if n == 0 {
        return Error::new(String::new(), 0, ErrorType::UndefinedLabel(name.clone()));
    }
    let mut chain: Vec<SourceLocation> = Vec::new();
    let mut i: usize = n - 1;
    while i > 0
        invariant
            i < n,
            n == uses@.len(),
            chain@.len() == n - 1 - i,
            forall|k: int| 0 <= k < chain@.len() ==> (#[trigger] chain@[k])@ == uses@[n - 2 - k]@,
        decreases i,
    {
        i = i - 1;
        chain.push(uses[i].duplicate());
    }
    let last = uses[n - 1].duplicate();
    let e = Error {
        source: last.source,
        line_number: last.line_number,
        kind: ErrorType::UndefinedLabel(name.clone()),
        chain,
    };
    assert(e@.chain =~= undefined(name@, locations(uses@)).chain);
    e
}

/// The second pass.
pub fn finish(state: ProcessState, symbols: Symbols) -> (r: Result<ProcessedSource, Error>)
    ensures
        match spec_finish(assembly(SegmentType::Unknown, state, symbols)) {
            Ok(p) => r matches Ok(v) && v@ == p,
            Err(f) => r matches Err(e) && e@ == f,
        },
{
    let ghost a = assembly(SegmentType::Unknown, state, symbols);
    let ProcessState { mut dls, entry } = state;
    let ghost before = dls@;
    let laid = match place(&mut dls.text, SEGMENT_ALIGNMENT) {
        None => None,
        Some(e1) => match place(&mut dls.rodata, e1) {
            None => None,
            Some(e2) => match place(&mut dls.data, e2) {
                None => None,
                Some(e3) => place(&mut dls.heap, e3),
            },
        },
    };
    if laid.is_none() {
        return Err(general_error("image exceeds the address space", String::new()));
    }
    assert(laid_out(before) == Some(dls@));
    let ghost table = symbols@;
    let n = symbols.size();
    let mut labels: Vec<(String, SymbolType, SegmentType, u16)> = Vec::new();
    let mut i: usize = 0;
    assert(label_views(labels@) =~= Seq::<Label>::empty());
    while i < n
        invariant
            i <= n,
            n == table.len(),
            table == symbols@,
            a == assembly(SegmentType::Unknown, state, symbols),
            a.table == table,
            a.entry == entry,
            laid_out(a.layout) == Some(dls@),
            labels_of(table, dls@, i as nat) == Ok::<Seq<Label>, Failure>(label_views(labels@)),
        decreases n - i,
    {
        let sym = &symbols.entries[i];
        assert(sym@ == table[i as int]);
        let ghost front = label_views(labels@);
        let element = match sym.definition {
            Some(addr) => {
                if sym.kind == SymbolType::Reference {
                    proof {
                        lemma_labels_fail(table, dls@, (i + 1) as nat, n as nat);
                    }
                    return Err(
                        general_error(
                            "symbol is declared as reference but defined",
                            sym.name.clone(),
                        ),
                    );
                }
                let pos: u32 = addr.1 as u32 + dls.start(addr.0) as u32;
                if pos > 0xffff {
                    proof {
                        lemma_labels_fail(table, dls@, (i + 1) as nat, n as nat);
                    }
                    return Err(
                        general_error("label lies beyond the address space", sym.name.clone()),
                    );
                }
                (sym.name.clone(), sym.kind, addr.0, pos as u16)
            },
            None => {
                if sym.kind == SymbolType::Internal {
                    proof {
                        lemma_labels_fail(table, dls@, (i + 1) as nat, n as nat);
                    }
                    return Err(undefined_error(&sym.name, &sym.uses));
                }
                (sym.name.clone(), SymbolType::Reference, SegmentType::Unknown, UNRESOLVED)
            },
        };
        let ghost l = (element.0@, element.1, element.2, element.3);
        labels.push(element);
        assert(label_views(labels@) =~= front.push(l));
        i = i + 1;
    }
    let entry = match entry {
        None => None,
        Some(addr) => {
            let pos: u32 = addr.1 as u32 + dls.start(addr.0) as u32;
            if pos > 0xffff {
                return Err(general_error("entry lies beyond the address space", String::new()));
            }
            Some(pos as u16)
        },
    };
    Ok(ProcessedSource { labels, dls, entry })
}

/// Once a symbol has failed the labels have failed, however many more
/// symbols follow.
pub proof fn lemma_labels_fail(table: Seq<Entry>, layout: Layout, k: nat, n: nat)
    requires
        k <= n,
        labels_of(table, layout, k) is Err,
    ensures
        labels_of(table, layout, n) == labels_of(table, layout, k),
    decreases n,
{
    if k < n {
        lemma_labels_fail(table, layout, k, (n - 1) as nat);
    }
}

/// Assembles the lines of one source that includes no other: both passes.
pub fn process(lines: SourceLines) -> (r: Result<ProcessedSource, Error>)
    ensures
        match spec_process(lines.name(), lines.line_number(), lines.remaining()) {
            Ok(p) => r matches Ok(v) && v@ == p,
            Err(f) => r matches Err(e) && e@ == f,
        },
{
    let mut lines = lines;
    let mut symbols = Symbols::new();
    let mut state = ProcessState::new();
    let mut segment = SegmentType::Unknown;
    match inner_process(&mut lines, &mut segment, &mut state, &mut symbols) {
        Err(e) => Err(e),
        Ok(Some(_)) => Err(Error::new(lines.source().clone(), lines.number(), ErrorType::IoError)),
        Ok(None) => finish(state, symbols),
    }
}

/// The address of the label with the given id: 0 where there is no such
/// label.
pub open spec fn address_of(labels: Seq<Label>, id: usize) -> u16 {
    if id < labels.len() {
        labels[id as int].3
    } else {
        0
    }
}

/// The value of a wide immediate once labels have addresses.
pub open spec fn resolve(w: Wide, labels: Seq<Label>) -> u16 {
    match w {
        Wide::Number(n) => n,
        Wide::Label(id) => address_of(labels, id),
    }
}

/// The bytes of a data line.
pub open spec fn item_bytes(item: Item, labels: Seq<Label>) -> Seq<u8> {
    match item {
        Item::Ins(opcode, d) => seq![opcode] + d.bytes(
            match d.spec_immediate() {
                Some(w) => resolve(w, labels),
                None => 0,
            },
        ),
        Item::Wide(w) => seq![(resolve(w, labels) % 256) as u8, (resolve(w, labels) / 256) as u8],
        Item::Raw(bytes) => bytes,
    }
}

/// The bytes of the first `k` data lines, one behind the other.
pub open spec fn lines_bytes(lines: Seq<Item>, labels: Seq<Label>, k: nat) -> Seq<u8>
    decreases k,
{
    if k == 0 {
        Seq::empty()
    } else {
        lines_bytes(lines, labels, (k - 1) as nat) + item_bytes(lines[k - 1], labels)
    }
}

/// The number of bytes that the first pass counts for a data line.
pub open spec fn item_size(item: Item) -> nat {
    match item {
        Item::Ins(_, d) => 1 + d.spec_size(),
        Item::Wide(_) => 2,
        Item::Raw(bytes) => bytes.len(),
    }
}

/// The number of bytes that the first pass counts for the first `k` data
/// lines.
pub open spec fn lines_size(lines: Seq<Item>, k: nat) -> nat
    decreases k,
{
    if k == 0 {
        0
    } else {
        lines_size(lines, (k - 1) as nat) + item_size(lines[k - 1])
    }
}

fn address(labels: &Vec<(String, SymbolType, SegmentType, u16)>, id: usize) -> (a: u16)
    ensures
        a == address_of(label_views(labels@), id),
{
    if id < labels.len() {
        labels[id].3
    } else {
        0
    }
}

/// The second pass, emission: the bytes of a segment, with every label in
/// it replaced by its address. A segment that is not there has no bytes.
pub fn emit(source: &ProcessedSource, st: SegmentType) -> (bytes: Vec<u8>)
    ensures
        bytes@ == match source@.layout.get(st) {
            Some(seg) => lines_bytes(seg.lines, source@.labels, seg.lines.len()),
            None => Seq::<u8>::empty(),
        },
{
    let mut mem: Vec<u8> = Vec::new();
    let seg = match source.dls.get(st) {
        Some(seg) => seg,
        None => {
            return mem;
        },
    };
    let ghost labels = source@.labels;
    let ghost lines = seg@.lines;
    let n = seg.lines.len();
    let mut i: usize = 0;
    while i < n
        invariant
            i <= n,
            n == seg.lines@.len(),
            lines == seg@.lines,
            labels == label_views(source.labels@),
            mem@ == lines_bytes(lines, labels, i as nat),
        decreases n - i,
    {
        assert(lines[i as int] == seg.lines@[i as int]@);
        let ghost before = mem@;
        match &seg.lines[i] {
            DataLine::Raw(bytes) => {
                let mut k: usize = 0;
                while k < bytes.len()
                    invariant
                        k <= bytes@.len(),
                        mem@ == before + bytes@.subrange(0, k as int),
                    decreases bytes@.len() - k,
                {
                    mem.push(bytes[k]);
                    k = k + 1;
                    assert(mem@ =~= before + bytes@.subrange(0, k as int));
                }
                assert(bytes@.subrange(0, bytes@.len() as int) =~= bytes@);
            },
            DataLine::Wide(w) => {
                let value = match w {
                    Wide::Number(n) => *n,
                    Wide::Label(id) => address(&source.labels, *id),
                };
                mem.push((value % 256) as u8);
                mem.push((value / 256) as u8);
                assert(mem@ =~= before + item_bytes(lines[i as int], labels));
            },
            DataLine::Ins(opcode, dat_op) => {
                mem.push(*opcode);
                let value = match dat_op.immediate() {
                    Some(Wide::Number(n)) => n,
                    Some(Wide::Label(id)) => address(&source.labels, id),
                    None => 0,
                };
                dat_op.encode(&mut mem, value);
                assert(mem@ =~= before + item_bytes(lines[i as int], labels));
            },
        }
        i = i + 1;
    }
    mem
}

/// Whether the size of a segment is the number of bytes that its lines
/// count for.
pub open spec fn counted_segment(seg: Option<Segment>) -> bool {
    match seg {
        Some(s) => s.size == lines_size(s.lines, s.lines.len()),
        None => true,
    }
}

/// Whether the size of every segment is the number of bytes that its lines
/// count for.
pub open spec fn counted(l: Layout) -> bool {
    counted_segment(l.text) && counted_segment(l.rodata) && counted_segment(l.data)
        && counted_segment(l.heap)
}

/// The count of a prefix of lines does not depend on the lines behind it.
proof fn lemma_lines_size_prefix(a: Seq<Item>, b: Seq<Item>, k: nat)
    requires
        k <= a.len(),
        k <= b.len(),
        forall|i: int| 0 <= i < k ==> a[i] == b[i],
    ensures
        lines_size(a, k) == lines_size(b, k),
    decreases k,
{
    if k > 0 {
        lemma_lines_size_prefix(a, b, (k - 1) as nat);
    }
}

/// Adding a line with the size it counts for keeps the sizes counted.
proof fn lemma_add_line_counted(l: Layout, st: SegmentType, item: Item, size: u16)
    requires
        counted(l),
        size == item_size(item),
        l.add_line(st, item, size) is Ok,
    ensures
        counted(l.add_line(st, item, size)->Ok_0),
{
    match l.get(st) {
        Some(seg) => {
            let lines = seg.lines.push(item);
            lemma_lines_size_prefix(lines, seg.lines, seg.lines.len());
        },
        None => {
            let lines = seq![item];
            assert(lines_size(lines, 0) == 0);
            assert(lines_size(lines, 1) == lines_size(lines, 0) + item_size(lines[0]));
        },
    }
}

/// A line keeps the sizes counted.
proof fn lemma_apply_counted(a: Assembly, source: Seq<char>, ln: LineNumber, line: Line)
    requires
        counted(a.layout),
    ensures
        counted(spec_apply(a, source, ln, line).0.layout),
{
    let at = Location { source, line_number: ln };
    match line {
        Line::Ins(name, ops) => {
            let (table, r) = spec_parse_ins(name, ops, a.table, at);
            match r {
                Ok((opcode, d)) => {
                    let item = Item::Ins(opcode, d);
                    if a.layout.add_line(a.segment, item, (1 + d.spec_size()) as u16) is Ok {
                        lemma_add_line_counted(
                            a.layout,
                            a.segment,
                            item,
                            (1 + d.spec_size()) as u16,
                        );
                    }
                },
                Err(_) => {},
            }
        },
        Line::DirByte(v) => {
            let item = Item::Raw(seq![v]);
            if a.layout.add_line(a.segment, item, 1) is Ok {
                lemma_add_line_counted(a.layout, a.segment, item, 1);
            }
        },
        Line::DirWide(w) => {
            let item = match w {
                Ok(n) => Item::Wide(Wide::Number(n)),
                Err(name) => Item::Wide(Wide::Label(position(a.table, name) as usize)),
            };
            if a.layout.add_line(a.segment, item, 2) is Ok {
                lemma_add_line_counted(a.layout, a.segment, item, 2);
            }
        },
        Line::DirString(bytes) => {
            if bytes.len() <= 0xffff {
                let item = Item::Raw(bytes);
                if a.layout.add_line(a.segment, item, bytes.len() as u16) is Ok {
                    lemma_add_line_counted(a.layout, a.segment, item, bytes.len() as u16);
                }
            }
        },
        _ => {},
    }
}

/// The first pass keeps the sizes counted.
pub proof fn lemma_inner_process_counted(
    a: Assembly,
    source: Seq<char>,
    ln: LineNumber,
    lines: Seq<Seq<char>>,
)
    requires
        counted(a.layout),
    ensures
        counted(spec_inner_process(a, source, ln, lines).assembly.layout),
    decreases lines.len(),
{
    if lines.len() > 0 {
        let n = next_number(ln);
        match line_outcome(source, n, lines[0]) {
            Err(_) => {},
            Ok(line) => {
                lemma_apply_counted(a, source, n, line);
                let (b, turn) = spec_apply(a, source, n, line);
                if turn == Ok::<Option<Seq<char>>, Failure>(None) {
                    lemma_inner_process_counted(b, source, n, lines.drop_first());
                }
            },
        }
    }
}

/// The bytes of lines are as many as the first pass counts for them.
pub proof fn lemma_lines_bytes_len(lines: Seq<Item>, labels: Seq<Label>, k: nat)
    requires
        k <= lines.len(),
    ensures
        lines_bytes(lines, labels, k).len() == lines_size(lines, k),
    decreases k,
{
    if k > 0 {
        lemma_lines_bytes_len(lines, labels, (k - 1) as nat);
        match lines[k - 1] {
            Item::Ins(_, d) => {
                let w = match d.spec_immediate() {
                    Some(w) => resolve(w, labels),
                    None => 0,
                };
                crate::source::operand::lemma_encode_then_decode(d, w, Seq::empty());
            },
            _ => {},
        }
    }
}

/// Whether a segment that is there starts at a multiple of the segment
/// alignment, at or behind `from`, and ends within the address space.
pub open spec fn well_placed(seg: Option<Segment>, from: int) -> bool {
    match seg {
        Some(s) => s.start % 0x100 == 0 && from <= s.start && s.start + s.size <= 0xffff,
        None => true,
    }
}

/// The end of a segment, or `from` where it is not there.
pub open spec fn end_of(seg: Option<Segment>, from: int) -> int {
    match seg {
        Some(s) => s.start + s.size,
        None => from,
    }
}

/// The two passes agree, and the segments do not overlap.
///
/// Where a source assembles, the bytes emitted for each segment are as
/// many as the size that the first pass counted, on which the addresses of
/// the labels rest. Every segment starts at a multiple of the segment
/// alignment, none starts before 0x100, and each one of text, read-only
/// data, data and heap starts at or behind the end of those before it.
pub proof fn lemma_process_sizes(
    source: Seq<char>,
    ln: LineNumber,
    lines: Seq<Seq<char>>,
    st: SegmentType,
)
    requires
        spec_process(source, ln, lines) is Ok,
    ensures
        ({
            let p = spec_process(source, ln, lines)->Ok_0;
            &&& p.layout.get(st) matches Some(seg) ==> lines_bytes(
                seg.lines,
                p.labels,
                seg.lines.len(),
            ).len() == seg.size
            &&& well_placed(p.layout.text, 0x100)
            &&& well_placed(p.layout.rodata, end_of(p.layout.text, 0x100))
            &&& well_placed(
                p.layout.data,
                end_of(p.layout.rodata, end_of(p.layout.text, 0x100)),
            )
            &&& well_placed(
                p.layout.heap,
                end_of(
                    p.layout.data,
                    end_of(p.layout.rodata, end_of(p.layout.text, 0x100)),
                ),
            )
        }),
{
    let start = Assembly {
        segment: SegmentType::Unknown,
        layout: Layout::empty(),
        entry: None,
        table: Seq::empty(),
    };
    lemma_inner_process_counted(start, source, ln, lines);
    let run = spec_inner_process(start, source, ln, lines);
    let p = spec_process(source, ln, lines)->Ok_0;
    let before = run.assembly.layout;
    assert(laid_out(before) == Some(p.layout));
    let e0 = 0x100int;
    let e1 = placed(before.text, e0)->Some_0.1;
    let e2 = placed(before.rodata, e1)->Some_0.1;
    let e3 = placed(before.data, e2)->Some_0.1;
    lemma_placed(before.text, e0);
    lemma_placed(before.rodata, e1);
    lemma_placed(before.data, e2);
    lemma_placed(before.heap, e3);
    match p.layout.get(st) {
        Some(seg) => {
            assert(counted_segment(p.layout.get(st)));
            lemma_lines_bytes_len(seg.lines, p.labels, seg.lines.len());
        },
        None => {},
    }
}

/// Placing a segment keeps its lines and its size, and puts it at a
/// multiple of the alignment at or behind the end of what came before.
proof fn lemma_placed(seg: Option<Segment>, last_end: int)
    requires
        0 <= last_end,
        placed(seg, last_end) is Some,
    ensures
        ({
            let (s, e) = placed(seg, last_end)->Some_0;
            &&& well_placed(s, last_end)
            &&& e == end_of(s, last_end)
            &&& last_end <= e
            &&& counted_segment(seg) ==> counted_segment(s)
            &&& s is Some <==> seg is Some
        }),
{
    crate::image::lemma_align(last_end, 0x100);
}

} // verus!
