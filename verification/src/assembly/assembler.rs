//! The two-pass assembler: symbol resolution over the parsed program,
//! code emission with a symbol table for externally-prefixed references,
//! and unused-label diagnostics.

use vstd::prelude::*;
use crate::types::{
    Instruction, Word, BASIC_PAYLOAD_MASK, EXTENDED_PAYLOAD_MASK, LINEAR_ADDRESS_SPACE_WORDS,
};
use crate::assembly::error::{
    AssemblerError, AssemblerErrorView, Diagnostics, DiagnosticsType, DiagnosticsTypeView,
    DiagnosticsView, LabelError, LabelErrorType, LabelErrorTypeView, LabelErrorView,
};
use crate::assembly::parser::{
    spec_parse_program, spec_required_words, AddressToken, AddressView, ContentView, IdentView,
    InstructionToken, InstructionView, ProgramToken, StatementContentToken, StatementToken,
    StatementView,
};

verus! {

// ---------------------------------------------------------------------
// Labels, symbols and object code.
// ---------------------------------------------------------------------

pub struct LabelView {
    pub prefix: Seq<u8>,
    pub name: Seq<u8>,
}

// A fully-qualified label consists of a device namespace prefix and a
// name suffix:
#[derive(Clone, PartialEq, Eq, Debug)]
pub struct Label {
    pub prefix: Vec<u8>,
    pub name: Vec<u8>,
}

impl View for Label {
    type V = LabelView;

    open spec fn view(&self) -> LabelView {
        LabelView { prefix: self.prefix@, name: self.name@ }
    }
}

impl Label {
    pub fn new(prefix: Vec<u8>, name: Vec<u8>) -> (l: Label)
        ensures
            l == (Label { prefix, name }),
    {
        Label { prefix, name }
    }
}

pub struct SymbolView {
    pub instruction_address: Word,
    pub label: LabelView,
}

// A symbol table contains a bunch of symbols (fully-qualified labels)
// and maps them to instruction addresses. It allows the memory unit to
// "link" the object code into an executable program.
#[derive(Clone, PartialEq, Eq, Debug)]
pub struct Symbol {
    pub instruction_address: Word,
    pub label: Label,
}

impl View for Symbol {
    type V = SymbolView;

    open spec fn view(&self) -> SymbolView {
        SymbolView { instruction_address: self.instruction_address, label: self.label@ }
    }
}

impl Symbol {
    pub fn new(instruction_address: Word, label: Label) -> (s: Symbol)
        ensures
            s == (Symbol { instruction_address, label }),
    {
        Symbol { instruction_address, label }
    }
}

pub struct ObjectCodeView {
    pub raw_code: Seq<Word>,
    pub symbol_table: Seq<SymbolView>,
}

// Object code consists of raw code and a symbol table:
#[derive(Debug)]
pub struct ObjectCode {
    pub raw_code: Vec<Word>,
    pub symbol_table: Vec<Symbol>,
}

impl View for ObjectCode {
    type V = ObjectCodeView;

    open spec fn view(&self) -> ObjectCodeView {
        ObjectCodeView {
            raw_code: self.raw_code@,
            symbol_table: self.symbol_table@.map(|k: int, s: Symbol| s@),
        }
    }
}

// The byte representation of a program listing:
pub type ProgramRepr = Vec<u8>;

// ---------------------------------------------------------------------
// The label map (pass 1).
// ---------------------------------------------------------------------

/// A local label bound to its line and word address.
pub struct BindingView {
    pub name: Seq<u8>,
    pub line_number: nat,
    pub address: Word,
}

// A label map entry: the line number and address of one local label.
#[derive(Clone, PartialEq, Eq, Debug)]
pub struct LabelBinding {
    pub name: Vec<u8>,
    pub line_number: usize,
    pub address: Word,
}

impl View for LabelBinding {
    type V = BindingView;

    open spec fn view(&self) -> BindingView {
        BindingView {
            name: self.name@,
            line_number: self.line_number as nat,
            address: self.address,
        }
    }
}

/// The only prefix a local label definition may carry.
pub open spec fn this_prefix() -> Seq<u8> {
    seq![116u8, 104u8, 105u8, 115u8]
}

pub open spec fn map_has(m: Seq<BindingView>, name: Seq<u8>) -> bool {
    exists|k: int| 0 <= k < m.len() && m[k].name == name
}

/// The address bound to a local label, if any (the first binding wins;
/// names are unique anyway).
pub open spec fn map_lookup(m: Seq<BindingView>, name: Seq<u8>) -> Option<Word>
    decreases m.len(),
{
    if m.len() == 0 {
        None
    } else if m[0].name == name {
        Some(m[0].address)
    } else {
        map_lookup(m.skip(1), name)
    }
}

/// Bind one label definition: a prefix other than `this` is rejected, a
/// name bound twice is rejected, and a label standing behind full
/// memory is rejected.
pub open spec fn pass1_one(
    l: IdentView,
    line: nat,
    m: Seq<BindingView>,
    count: int,
) -> Result<Seq<BindingView>, LabelErrorView> {
    let prefix_ok = match l.prefix {
        Some(p) => p == this_prefix(),
        None => true,
    };
    if !prefix_ok {
        Err(
            LabelErrorView {
                line_number: line,
                err_type: LabelErrorTypeView::BadDefPrefix(l.prefix.unwrap()),
            },
        )
    } else if map_has(m, l.name) {
        Err(
            LabelErrorView { line_number: line, err_type: LabelErrorTypeView::Duplicate(l.name) },
        )
    } else if count >= LINEAR_ADDRESS_SPACE_WORDS {
        Err(
            LabelErrorView {
                line_number: line,
                err_type: LabelErrorTypeView::BehindFullMemory(l.name),
            },
        )
    } else {
        Ok(m.push(BindingView { name: l.name, line_number: line, address: Word(count as u32) }))
    }
}

pub open spec fn pass1_labels(
    labels: Seq<IdentView>,
    line: nat,
    m: Seq<BindingView>,
    count: int,
) -> Result<Seq<BindingView>, LabelErrorView>
    decreases labels.len(),
{
    if labels.len() == 0 {
        Ok(m)
    } else {
        match pass1_one(labels[0], line, m, count) {
            Err(e) => Err(e),
            Ok(m2) => pass1_labels(labels.skip(1), line, m2, count),
        }
    }
}

/// Pass 1 over the statements from index `n` on: bind the labels of
/// each statement at the running word count, then add the statement's
/// required words, rejecting a total beyond linear memory.
pub open spec fn pass1_stmts(
    stmts: Seq<StatementView>,
    n: int,
    m: Seq<BindingView>,
    count: int,
) -> Result<(Seq<BindingView>, int), AssemblerErrorView>
    decreases stmts.len() - n,
{
    if !(0 <= n < stmts.len()) {
        Ok((m, count))
    } else {
        let st = stmts[n];
        match pass1_labels(st.label_defs, st.line_number, m, count) {
            Err(e) => Err(AssemblerErrorView::Label(e)),
            Ok(m2) => {
                let c2 = count + spec_required_words(st);
                if c2 > LINEAR_ADDRESS_SPACE_WORDS {
                    Err(AssemblerErrorView::Overflow(st.line_number))
                } else {
                    pass1_stmts(stmts, n + 1, m2, c2)
                }
            },
        }
    }
}

/// The label map and total word count of a program.
pub open spec fn spec_build_label_map(prog: Seq<StatementView>) -> Result<
    (Seq<BindingView>, int),
    AssemblerErrorView,
> {
    pass1_stmts(prog, 0, Seq::empty(), 0)
}

/// Every address a label map built by pass 1 binds lies inside linear
/// memory.
pub open spec fn map_wf(m: Seq<BindingView>) -> bool {
    forall|k: int| 0 <= k < m.len() ==> (#[trigger] m[k]).address.0 < LINEAR_ADDRESS_SPACE_WORDS
}

fn clone_bytes(v: &Vec<u8>) -> (r: Vec<u8>)
    ensures
        r@ == v@,
{
    let mut r: Vec<u8> = Vec::new();
    let mut k: usize = 0;
    while k < v.len()
        invariant
            k <= v@.len(),
            r@ == v@.subrange(0, k as int),
        decreases v@.len() - k,
    {
        r.push(v[k]);
        k = k + 1;
        proof {
            assert(r@ =~= v@.subrange(0, k as int));
        }
    }
    proof {
        assert(r@ =~= v@);
    }
    r
}

fn bytes_eq(a: &Vec<u8>, b: &Vec<u8>) -> (r: bool)
    ensures
        r == (a@ == b@),
{
    if a.len() != b.len() {
        return false;
    }
    let mut k: usize = 0;
    while k < a.len()
        invariant
            a@.len() == b@.len(),
            k <= a@.len(),
            forall|q: int| 0 <= q < k ==> a@[q] == b@[q],
        decreases a@.len() - k,
    {
        if a[k] != b[k] {
            return false;
        }
        k = k + 1;
    }
    proof {
        assert(a@ =~= b@);
    }
    true
}

fn is_this_prefix(p: &Vec<u8>) -> (r: bool)
    ensures
        r == (p@ == this_prefix()),
{
    let r = p.len() == 4 && p[0] == 116 && p[1] == 104 && p[2] == 105 && p[3] == 115;
    proof {
        if r {
            assert(p@ =~= this_prefix());
        }
    }
    r
}

fn map_find(m: &Vec<LabelBinding>, name: &Vec<u8>) -> (r: Option<Word>)
    ensures
        r == map_lookup(m@.map(|k: int, b: LabelBinding| b@), name@),
{
    let ghost mv = m@.map(|k: int, b: LabelBinding| b@);
    proof {
        assert(mv.skip(0) =~= mv);
    }
    let mut t: usize = 0;
    while t < m.len()
        invariant
            t <= m@.len(),
            mv == m@.map(|k: int, b: LabelBinding| b@),
            map_lookup(mv, name@) == map_lookup(mv.skip(t as int), name@),
        decreases m@.len() - t,
    {
        proof {
            assert(mv.skip(t as int)[0] == mv[t as int]);
        }
        if bytes_eq(&m[t].name, name) {
            return Some(m[t].address);
        }
        t = t + 1;
        proof {
            assert(mv.skip(t as int - 1).skip(1) =~= mv.skip(t as int));
        }
    }
    proof {
        assert(mv.skip(t as int).len() == 0);
    }
    None
}

impl ObjectCode {
    fn build_label_map(program: &ProgramToken) -> (r: Result<
        (Vec<LabelBinding>, u64),
        AssemblerError,
    >)
        ensures
            r matches Ok(t) ==> spec_build_label_map(program@) == Ok::<
                (Seq<BindingView>, int),
                AssemblerErrorView,
            >((t.0@.map(|k: int, b: LabelBinding| b@), t.1 as int)) && map_wf(
                t.0@.map(|k: int, b: LabelBinding| b@),
            ) && t.1 <= LINEAR_ADDRESS_SPACE_WORDS as u64,
            r matches Err(e) ==> spec_build_label_map(program@) == Err::<
                (Seq<BindingView>, int),
                AssemblerErrorView,
            >(e@),
    {
        let ghost prog = program@;
        let mut label_map: Vec<LabelBinding> = Vec::new();
        // Track the addresses of the statements.
        // Use a 64-bit value to detect overflows.
        let mut number_of_words: u64 = 0;
        proof {
            assert(label_map@.map(|k: int, b: LabelBinding| b@) =~= Seq::<BindingView>::empty());
        }
        let mut n: usize = 0;
        while n < program.0.len()
            invariant
                prog == program@,
                n <= prog.len(),
                number_of_words <= LINEAR_ADDRESS_SPACE_WORDS as u64,
                map_wf(label_map@.map(|k: int, b: LabelBinding| b@)),
                pass1_stmts(prog, 0, Seq::empty(), 0) == pass1_stmts(
                    prog,
                    n as int,
                    label_map@.map(|k: int, b: LabelBinding| b@),
                    number_of_words as int,
                ),
            decreases prog.len() - n,
        {
            let stmt = &program.0[n];
            proof {
                assert(prog[n as int] == program.0@[n as int]@);
            }
            // Iterate through the statement's label definitions.
            let ghost stv = prog[n as int];
            proof {
                assert(stv.label_defs.skip(0) =~= stv.label_defs);
            }
            let mut t: usize = 0;
            while t < stmt.label_defs.len()
                invariant
                    prog == program@,
                    n < prog.len(),
                    stmt == &program.0[n as int],
                    stv == prog[n as int],
                    stv.label_defs == stmt.label_defs@.map(
                        |k: int, l: crate::assembly::parser::LabelDefinitionToken| l@,
                    ),
                    t <= stmt.label_defs@.len(),
                    number_of_words <= LINEAR_ADDRESS_SPACE_WORDS as u64,
                    map_wf(label_map@.map(|k: int, b: LabelBinding| b@)),
                    pass1_stmts(prog, 0, Seq::empty(), 0) == (match pass1_labels(
                        stv.label_defs.skip(t as int),
                        stv.line_number,
                        label_map@.map(|k: int, b: LabelBinding| b@),
                        number_of_words as int,
                    ) {
                        Err(e) => Err(AssemblerErrorView::Label(e)),
                        Ok(m2) => {
                            let c2 = number_of_words + spec_required_words(stv);
                            if c2 > LINEAR_ADDRESS_SPACE_WORDS {
                                Err(AssemblerErrorView::Overflow(stv.line_number))
                            } else {
                                pass1_stmts(prog, n + 1, m2, c2)
                            }
                        },
                    }),
                decreases stmt.label_defs@.len() - t,
            {
                let label = &stmt.label_defs[t];
                let ghost lv = stv.label_defs[t as int];
                proof {
                    assert(stv.label_defs.skip(t as int)[0] == stv.label_defs[t as int]);
                    assert(lv == stmt.label_defs@[t as int]@);
                }
                // If a local label has a prefix != "this", we have an
                // error case:
                match &label.0.prefix {
                    Some(p) => {
                        if !is_this_prefix(p) {
                            return Err(
                                AssemblerError::LabelError(
                                    LabelError::new(
                                        stmt.line_number,
                                        LabelErrorType::BadDefPrefix(clone_bytes(p)),
                                    ),
                                ),
                            );
                        }
                    },
                    None => {},
                }
                // A name that is already bound is a duplicate:
                let mut duplicate = false;
                let mut q: usize = 0;
                while q < label_map.len()
                    invariant
                        q <= label_map@.len(),
                        duplicate ==> map_has(
                            label_map@.map(|k: int, b: LabelBinding| b@),
                            label.0.name@,
                        ),
                        !duplicate ==> forall|w: int|
                            0 <= w < q ==> (#[trigger] label_map@[w])@.name != label.0.name@,
                    decreases label_map@.len() - q,
                {
                    if bytes_eq(&label_map[q].name, &label.0.name) {
                        duplicate = true;
                        proof {
                            assert(label_map@.map(|k: int, b: LabelBinding| b@)[q as int].name
                                == label.0.name@);
                        }
                    }
                    q = q + 1;
                }
                if duplicate {
                    return Err(
                        AssemblerError::LabelError(
                            LabelError::new(
                                stmt.line_number,
                                LabelErrorType::Duplicate(clone_bytes(&label.0.name)),
                            ),
                        ),
                    );
                }
                proof {
                    assert(!map_has(label_map@.map(|k: int, b: LabelBinding| b@), label.0.name@));
                }
                // A label behind full memory has no valid address:
                if number_of_words >= (LINEAR_ADDRESS_SPACE_WORDS as u64) {
                    return Err(
                        AssemblerError::LabelError(
                            LabelError::new(
                                stmt.line_number,
                                LabelErrorType::BehindFullMemory(clone_bytes(&label.0.name)),
                            ),
                        ),
                    );
                }
                let ghost prev_map = label_map@;
                label_map.push(
                    LabelBinding {
                        name: clone_bytes(&label.0.name),
                        line_number: stmt.line_number,
                        address: Word(number_of_words as u32),
                    },
                );
                t = t + 1;
                proof {
                    let f = |k: int, b: LabelBinding| b@;
                    assert(label_map@.map(f) =~= prev_map.map(f).push(label_map@.last()@));
                    assert(stv.label_defs.skip(t - 1).skip(1) =~= stv.label_defs.skip(t as int));
                }
            }
            proof {
                assert(stv.label_defs.skip(t as int).len() == 0);
            }
            // Increment the number of words and check if it is still
            // valid:
            let required = stmt.required_words();
            let new_count = number_of_words + (required as u64);
            if new_count > (LINEAR_ADDRESS_SPACE_WORDS as u64) {
                return Err(AssemblerError::OverflowError(stmt.line_number));
            }
            number_of_words = new_count;
            n = n + 1;
        }
        Ok((label_map, number_of_words))
    }
}

} // verus!

verus! {

// ---------------------------------------------------------------------
// Code emission (pass 2).
// ---------------------------------------------------------------------

/// The placeholder address emitted for an externally-prefixed label
/// reference: the top of the address space minus one, guaranteed to
/// fault when dereferenced without having been resolved.
pub open spec fn placeholder_address() -> Word {
    Word(0x0FFFFFFF)
}

/// Resolve an address operand at the given emission offset: a bare
/// number is the address itself; a prefixed label becomes the
/// placeholder address plus a symbol table entry; a local label must be
/// bound in the label map.
pub open spec fn spec_resolve_addr(
    a: AddressView,
    m: Seq<BindingView>,
    instruction_address: Word,
    line: nat,
) -> Result<(Word, Option<SymbolView>), LabelErrorView> {
    match a {
        AddressView::Address(w) => Ok((w.0, None)),
        AddressView::Label(l) => match l.prefix {
            Some(p) => Ok(
                (
                    placeholder_address(),
                    Some(
                        SymbolView {
                            instruction_address,
                            label: LabelView { prefix: p, name: l.name },
                        },
                    ),
                ),
            ),
            None => match map_lookup(m, l.name) {
                Some(bound) => Ok((bound, None)),
                None => Err(
                    LabelErrorView {
                        line_number: line,
                        err_type: LabelErrorTypeView::NotResolved(l.name),
                    },
                ),
            },
        },
    }
}

/// The machine word of one instruction statement, together with the
/// symbol table entry its operand may produce.
pub open spec fn spec_emit_instruction(
    iv: InstructionView,
    m: Seq<BindingView>,
    instruction_address: Word,
    line: nat,
) -> Result<(Word, Option<SymbolView>), LabelErrorView> {
    match iv {
        InstructionView::Add(a) => match spec_resolve_addr(a, m, instruction_address, line) {
            Ok((w, sym)) => Ok((Instruction::Add(w).spec_encode(), sym)),
            Err(e) => Err(e),
        },
        InstructionView::And(a) => match spec_resolve_addr(a, m, instruction_address, line) {
            Ok((w, sym)) => Ok((Instruction::And(w).spec_encode(), sym)),
            Err(e) => Err(e),
        },
        InstructionView::Or(a) => match spec_resolve_addr(a, m, instruction_address, line) {
            Ok((w, sym)) => Ok((Instruction::Or(w).spec_encode(), sym)),
            Err(e) => Err(e),
        },
        InstructionView::Xor(a) => match spec_resolve_addr(a, m, instruction_address, line) {
            Ok((w, sym)) => Ok((Instruction::Xor(w).spec_encode(), sym)),
            Err(e) => Err(e),
        },
        InstructionView::LoadValue(a) => match spec_resolve_addr(a, m, instruction_address, line) {
            Ok((w, sym)) => Ok((Instruction::LoadValue(w).spec_encode(), sym)),
            Err(e) => Err(e),
        },
        InstructionView::StoreValue(a) => match spec_resolve_addr(
            a,
            m,
            instruction_address,
            line,
        ) {
            Ok((w, sym)) => Ok((Instruction::StoreValue(w).spec_encode(), sym)),
            Err(e) => Err(e),
        },
        InstructionView::LoadConstant(w) => Ok(
            (Instruction::LoadConstant(w.0).spec_encode(), None),
        ),
        InstructionView::Jump(a) => match spec_resolve_addr(a, m, instruction_address, line) {
            Ok((w, sym)) => Ok((Instruction::Jump(w).spec_encode(), sym)),
            Err(e) => Err(e),
        },
        InstructionView::JumpIfNegative(a) => match spec_resolve_addr(
            a,
            m,
            instruction_address,
            line,
        ) {
            Ok((w, sym)) => Ok((Instruction::JumpIfNegative(w).spec_encode(), sym)),
            Err(e) => Err(e),
        },
        InstructionView::Equals(a) => match spec_resolve_addr(a, m, instruction_address, line) {
            Ok((w, sym)) => Ok((Instruction::Equals(w).spec_encode(), sym)),
            Err(e) => Err(e),
        },
        InstructionView::Halt => Ok((Instruction::Halt.spec_encode(), None)),
        InstructionView::Not => Ok((Instruction::Not.spec_encode(), None)),
        InstructionView::RotateRight(w) => Ok(
            (Instruction::RotateRight(w.0).spec_encode(), None),
        ),
        InstructionView::NoOperation => Ok((Instruction::NoOperation.spec_encode(), None)),
    }
}

/// Pass 2 over the statements from index `n` on: emit data words and
/// instruction words, collecting symbol table entries.
pub open spec fn pass2_stmts(
    stmts: Seq<StatementView>,
    n: int,
    m: Seq<BindingView>,
    code: Seq<Word>,
    syms: Seq<SymbolView>,
) -> Result<(Seq<Word>, Seq<SymbolView>), AssemblerErrorView>
    decreases stmts.len() - n,
{
    if !(0 <= n < stmts.len()) {
        Ok((code, syms))
    } else {
        let st = stmts[n];
        match st.content {
            None => pass2_stmts(stmts, n + 1, m, code, syms),
            Some(ContentView::Data(d)) => pass2_stmts(
                stmts,
                n + 1,
                m,
                code + Seq::new(d.spec_times() as nat, |q: int| d.spec_word()),
                syms,
            ),
            Some(ContentView::Instruction(iv)) => match spec_emit_instruction(
                iv,
                m,
                Word(code.len() as u32),
                st.line_number,
            ) {
                Err(e) => Err(AssemblerErrorView::Label(e)),
                Ok((w, None)) => pass2_stmts(stmts, n + 1, m, code.push(w), syms),
                Ok((w, Some(sym))) => pass2_stmts(stmts, n + 1, m, code.push(w), syms.push(sym)),
            },
        }
    }
}

// ---------------------------------------------------------------------
// Encodability: the literal payloads an input may carry.
// ---------------------------------------------------------------------

pub open spec fn address_literal_fits(a: AddressView) -> bool {
    match a {
        AddressView::Address(w) => w.0.0 <= BASIC_PAYLOAD_MASK,
        AddressView::Label(_) => true,
    }
}

/// Does every literal payload of the instruction fit its format? The
/// encoder asserts this; inputs that break it are programmer errors of
/// the program being assembled.
pub open spec fn instruction_encodable(iv: InstructionView) -> bool {
    match iv {
        InstructionView::Add(a) => address_literal_fits(a),
        InstructionView::And(a) => address_literal_fits(a),
        InstructionView::Or(a) => address_literal_fits(a),
        InstructionView::Xor(a) => address_literal_fits(a),
        InstructionView::LoadValue(a) => address_literal_fits(a),
        InstructionView::StoreValue(a) => address_literal_fits(a),
        InstructionView::LoadConstant(w) => w.0.0 <= BASIC_PAYLOAD_MASK,
        InstructionView::Jump(a) => address_literal_fits(a),
        InstructionView::JumpIfNegative(a) => address_literal_fits(a),
        InstructionView::Equals(a) => address_literal_fits(a),
        InstructionView::Halt => true,
        InstructionView::Not => true,
        InstructionView::RotateRight(w) => w.0.0 <= EXTENDED_PAYLOAD_MASK,
        InstructionView::NoOperation => true,
    }
}

pub open spec fn statement_encodable(st: StatementView) -> bool {
    match st.content {
        Some(ContentView::Instruction(iv)) => instruction_encodable(iv),
        _ => true,
    }
}

pub open spec fn program_encodable(prog: Seq<StatementView>) -> bool {
    forall|k: int| 0 <= k < prog.len() ==> statement_encodable(#[trigger] prog[k])
}

// ---------------------------------------------------------------------
// Diagnostics (pass 3).
// ---------------------------------------------------------------------

pub open spec fn address_references(a: AddressView, name: Seq<u8>) -> bool {
    match a {
        AddressView::Label(l) => l.name == name,
        AddressView::Address(_) => false,
    }
}

pub open spec fn instruction_references(iv: InstructionView, name: Seq<u8>) -> bool {
    match iv {
        InstructionView::Add(a) => address_references(a, name),
        InstructionView::And(a) => address_references(a, name),
        InstructionView::Or(a) => address_references(a, name),
        InstructionView::Xor(a) => address_references(a, name),
        InstructionView::LoadValue(a) => address_references(a, name),
        InstructionView::StoreValue(a) => address_references(a, name),
        InstructionView::Jump(a) => address_references(a, name),
        InstructionView::JumpIfNegative(a) => address_references(a, name),
        InstructionView::Equals(a) => address_references(a, name),
        _ => false,
    }
}

pub open spec fn statement_references(st: StatementView, name: Seq<u8>) -> bool {
    match st.content {
        Some(ContentView::Instruction(iv)) => instruction_references(iv, name),
        _ => false,
    }
}

/// Is the label name referenced anywhere in the program (with or
/// without a prefix)?
pub open spec fn program_references(prog: Seq<StatementView>, name: Seq<u8>) -> bool {
    exists|k: int| 0 <= k < prog.len() && statement_references(#[trigger] prog[k], name)
}

/// One warning per bound label that no instruction references, in
/// binding order (which is line order).
pub open spec fn spec_diagnostics(prog: Seq<StatementView>, m: Seq<BindingView>) -> Seq<
    DiagnosticsView,
>
    decreases m.len(),
{
    if m.len() == 0 {
        Seq::empty()
    } else {
        let head: Seq<DiagnosticsView> = if !program_references(prog, m[0].name) {
            seq![
                DiagnosticsView {
                    line_number: m[0].line_number,
                    diag_type: DiagnosticsTypeView::UnusedLocalLabel(m[0].name),
                },
            ]
        } else {
            Seq::empty()
        };
        head.add(spec_diagnostics(prog, m.skip(1)))
    }
}

// ---------------------------------------------------------------------
// The whole assembly.
// ---------------------------------------------------------------------

/// What a successful assembly produces: the raw code, the symbol table
/// and the diagnostics.
pub open spec fn spec_assemble(input: Seq<u8>) -> Result<
    (Seq<Word>, Seq<SymbolView>, Seq<DiagnosticsView>),
    AssemblerErrorView,
> {
    match spec_parse_program(input) {
        Err(e) => Err(AssemblerErrorView::Parser(e)),
        Ok(prog) => match spec_build_label_map(prog) {
            Err(e) => Err(e),
            Ok((m, total)) => match pass2_stmts(prog, 0, m, Seq::empty(), Seq::empty()) {
                Err(e) => Err(e),
                Ok((code, syms)) => Ok((code, syms, spec_diagnostics(prog, m))),
            },
        },
    }
}

/// The number of words the statements before index `n` occupy.
pub open spec fn words_before(stmts: Seq<StatementView>, n: int) -> int
    decreases n,
{
    if n <= 0 {
        0
    } else {
        words_before(stmts, n - 1) + spec_required_words(stmts[n - 1])
    }
}

/// When pass 1 succeeds, every prefix of the program fits in linear
/// memory, and the total is the sum of all required words.
pub proof fn lemma_pass1_prefix_bounds(
    stmts: Seq<StatementView>,
    n: int,
    m: Seq<BindingView>,
    count: int,
)
    requires
        0 <= n <= stmts.len(),
        count == words_before(stmts, n),
        count <= LINEAR_ADDRESS_SPACE_WORDS,
        pass1_stmts(stmts, n, m, count) matches Ok(_),
    ensures
        forall|j: int|
            n <= j <= stmts.len() ==> #[trigger] words_before(stmts, j)
                <= LINEAR_ADDRESS_SPACE_WORDS,
        pass1_stmts(stmts, n, m, count) matches Ok(t) ==> t.1 == words_before(
            stmts,
            stmts.len() as int,
        ),
    decreases stmts.len() - n,
{
    if n < stmts.len() {
        let st = stmts[n];
        match pass1_labels(st.label_defs, st.line_number, m, count) {
            Ok(m2) => {
                lemma_pass1_prefix_bounds(stmts, n + 1, m2, count + spec_required_words(st));
            },
            Err(_) => {},
        }
    }
}

} // verus!

verus! {

/// Every address a well-formed label map yields lies inside linear
/// memory.
proof fn lemma_map_lookup_wf(m: Seq<BindingView>, name: Seq<u8>)
    requires
        map_wf(m),
    ensures
        map_lookup(m, name) matches Some(a) ==> a.0 < LINEAR_ADDRESS_SPACE_WORDS,
    decreases m.len(),
{
    if m.len() > 0 && m[0].name != name {
        assert forall|k: int| 0 <= k < m.skip(1).len() implies (#[trigger] m.skip(1)[k]).address.0
            < LINEAR_ADDRESS_SPACE_WORDS by {
            assert(m.skip(1)[k] == m[k + 1]);
        }
        lemma_map_lookup_wf(m.skip(1), name);
    }
}

impl ObjectCode {
    /// Resolve an address operand, appending a symbol table entry for an
    /// externally-prefixed reference.
    fn resolve_addr(
        addr_token: &AddressToken,
        label_map: &Vec<LabelBinding>,
        instruction_address: Word,
        line_number: usize,
        symbols: &mut Vec<Symbol>,
    ) -> (r: Result<Word, LabelError>)
        requires
            map_wf(label_map@.map(|k: int, b: LabelBinding| b@)),
        ensures
            r matches Ok(w) ==> (spec_resolve_addr(
                addr_token@,
                label_map@.map(|k: int, b: LabelBinding| b@),
                instruction_address,
                line_number as nat,
            ) matches Ok(p) && p.0 == w && (match p.1 {
                None => final(symbols)@ == old(symbols)@,
                Some(sv) => final(symbols)@.map(|k: int, s: Symbol| s@) == old(symbols)@.map(
                    |k: int, s: Symbol| s@,
                ).push(sv),
            }) && (addr_token@ matches AddressView::Label(_) ==> w.0 <= BASIC_PAYLOAD_MASK)),
            r matches Err(e) ==> spec_resolve_addr(
                addr_token@,
                label_map@.map(|k: int, b: LabelBinding| b@),
                instruction_address,
                line_number as nat,
            ) == Err::<(Word, Option<SymbolView>), LabelErrorView>(e@) && *final(symbols) == *old(
                symbols,
            ),
    {
        match addr_token {
            AddressToken::Address(w) => Ok(w.0),
            AddressToken::Label(l) => {
                match &l.prefix {
                    Some(prefix) => {
                        // Append this position to the symbol table.
                        // It must be resolved later.
                        let label = Label::new(clone_bytes(prefix), clone_bytes(&l.name));
                        let ghost prev = symbols@;
                        symbols.push(Symbol::new(instruction_address, label));
                        proof {
                            let f = |k: int, s: Symbol| s@;
                            assert(symbols@.map(f) =~= prev.map(f).push(symbols@.last()@));
                        }
                        // Return a magical address that will be replaced
                        // later:
                        Ok(Word(0x0FFFFFFF))
                    },
                    None => {
                        // We have a local label.
                        // It must be located in our label map.
                        proof {
                            lemma_map_lookup_wf(
                                label_map@.map(|k: int, b: LabelBinding| b@),
                                l.name@,
                            );
                        }
                        match map_find(label_map, &l.name) {
                            Some(bound) => Ok(bound),
                            None => Err(
                                LabelError::new(
                                    line_number,
                                    LabelErrorType::NotResolved(clone_bytes(&l.name)),
                                ),
                            ),
                        }
                    },
                }
            },
        }
    }

    /// The machine word of one instruction statement.
    fn emit_instruction(
        instr: &InstructionToken,
        label_map: &Vec<LabelBinding>,
        instruction_address: Word,
        line_number: usize,
        symbols: &mut Vec<Symbol>,
    ) -> (r: Result<Word, LabelError>)
        requires
            map_wf(label_map@.map(|k: int, b: LabelBinding| b@)),
            instruction_encodable(instr@),
        ensures
            r matches Ok(w) ==> (spec_emit_instruction(
                instr@,
                label_map@.map(|k: int, b: LabelBinding| b@),
                instruction_address,
                line_number as nat,
            ) matches Ok(p) && p.0 == w && (match p.1 {
                None => final(symbols)@ == old(symbols)@,
                Some(sv) => final(symbols)@.map(|k: int, s: Symbol| s@) == old(symbols)@.map(
                    |k: int, s: Symbol| s@,
                ).push(sv),
            })),
            r matches Err(e) ==> spec_emit_instruction(
                instr@,
                label_map@.map(|k: int, b: LabelBinding| b@),
                instruction_address,
                line_number as nat,
            ) == Err::<(Word, Option<SymbolView>), LabelErrorView>(e@) && *final(symbols) == *old(
                symbols,
            ),
    {
        match instr {
            InstructionToken::Add(a) => {
                match Self::resolve_addr(a, label_map, instruction_address, line_number, symbols) {
                    Ok(w) => Ok(Instruction::Add(w).encode()),
                    Err(e) => Err(e),
                }
            },
            InstructionToken::And(a) => {
                match Self::resolve_addr(a, label_map, instruction_address, line_number, symbols) {
                    Ok(w) => Ok(Instruction::And(w).encode()),
                    Err(e) => Err(e),
                }
            },
            InstructionToken::Or(a) => {
                match Self::resolve_addr(a, label_map, instruction_address, line_number, symbols) {
                    Ok(w) => Ok(Instruction::Or(w).encode()),
                    Err(e) => Err(e),
                }
            },
            InstructionToken::Xor(a) => {
                match Self::resolve_addr(a, label_map, instruction_address, line_number, symbols) {
                    Ok(w) => Ok(Instruction::Xor(w).encode()),
                    Err(e) => Err(e),
                }
            },
            InstructionToken::LoadValue(a) => {
                match Self::resolve_addr(a, label_map, instruction_address, line_number, symbols) {
                    Ok(w) => Ok(Instruction::LoadValue(w).encode()),
                    Err(e) => Err(e),
                }
            },
            InstructionToken::StoreValue(a) => {
                match Self::resolve_addr(a, label_map, instruction_address, line_number, symbols) {
                    Ok(w) => Ok(Instruction::StoreValue(w).encode()),
                    Err(e) => Err(e),
                }
            },
            InstructionToken::LoadConstant(w) => Ok(Instruction::LoadConstant(w.0).encode()),
            InstructionToken::Jump(a) => {
                match Self::resolve_addr(a, label_map, instruction_address, line_number, symbols) {
                    Ok(w) => Ok(Instruction::Jump(w).encode()),
                    Err(e) => Err(e),
                }
            },
            InstructionToken::JumpIfNegative(a) => {
                match Self::resolve_addr(a, label_map, instruction_address, line_number, symbols) {
                    Ok(w) => Ok(Instruction::JumpIfNegative(w).encode()),
                    Err(e) => Err(e),
                }
            },
            InstructionToken::Equals(a) => {
                match Self::resolve_addr(a, label_map, instruction_address, line_number, symbols) {
                    Ok(w) => Ok(Instruction::Equals(w).encode()),
                    Err(e) => Err(e),
                }
            },
            InstructionToken::Halt => Ok(Instruction::Halt.encode()),
            InstructionToken::Not => Ok(Instruction::Not.encode()),
            InstructionToken::RotateRight(w) => Ok(Instruction::RotateRight(w.0).encode()),
            InstructionToken::NoOperation => Ok(Instruction::NoOperation.encode()),
        }
    }
}

} // verus!

verus! {

/// The views of a vector of diagnostics.
pub open spec fn diags_view(s: Seq<Diagnostics>) -> Seq<DiagnosticsView> {
    s.map(|k: int, d: Diagnostics| d@)
}

fn statement_references_x(stmt: &StatementToken, name: &Vec<u8>) -> (r: bool)
    ensures
        r == statement_references(stmt@, name@),
{
    match &stmt.content {
        Some(StatementContentToken::Instruction(instr)) => match instr {
            InstructionToken::Add(a)
            | InstructionToken::And(a)
            | InstructionToken::Or(a)
            | InstructionToken::Xor(a)
            | InstructionToken::LoadValue(a)
            | InstructionToken::StoreValue(a)
            | InstructionToken::Jump(a)
            | InstructionToken::JumpIfNegative(a)
            | InstructionToken::Equals(a) => {
                match a {
                    AddressToken::Label(l) => bytes_eq(&l.name, name),
                    AddressToken::Address(_) => false,
                }
            },
            _ => false,
        },
        _ => false,
    }
}

fn program_references_x(program: &ProgramToken, name: &Vec<u8>) -> (r: bool)
    ensures
        r == program_references(program@, name@),
{
    let mut k: usize = 0;
    while k < program.0.len()
        invariant
            k <= program@.len(),
            forall|q: int| 0 <= q < k ==> !statement_references(#[trigger] program@[q], name@),
        decreases program@.len() - k,
    {
        proof {
            assert(program@[k as int] == program.0@[k as int]@);
        }
        if statement_references_x(&program.0[k], name) {
            return true;
        }
        k = k + 1;
    }
    false
}

impl ObjectCode {
    fn find_unused_labels(
        program: &ProgramToken,
        label_map: &Vec<LabelBinding>,
        diagnostics: &mut Vec<Diagnostics>,
    )
        ensures
            diags_view(final(diagnostics)@) == diags_view(old(diagnostics)@).add(
                spec_diagnostics(program@, label_map@.map(|k: int, b: LabelBinding| b@)),
            ),
    {
        let ghost mv = label_map@.map(|k: int, b: LabelBinding| b@);
        proof {
            assert(mv.skip(0) =~= mv);
        }
        let mut t: usize = 0;
        while t < label_map.len()
            invariant
                t <= label_map@.len(),
                mv == label_map@.map(|k: int, b: LabelBinding| b@),
                diags_view(old(diagnostics)@).add(spec_diagnostics(program@, mv)) == diags_view(
                    diagnostics@,
                ).add(spec_diagnostics(program@, mv.skip(t as int))),
            decreases label_map@.len() - t,
        {
            proof {
                assert(mv.skip(t as int)[0] == mv[t as int]);
                assert(mv[t as int] == label_map@[t as int]@);
            }
            let binding = &label_map[t];
            let ghost prev = diagnostics@;
            let ghost head = if !program_references(program@, mv[t as int].name) {
                seq![
                    DiagnosticsView {
                        line_number: mv[t as int].line_number,
                        diag_type: DiagnosticsTypeView::UnusedLocalLabel(mv[t as int].name),
                    },
                ]
            } else {
                Seq::<DiagnosticsView>::empty()
            };
            if !program_references_x(program, &binding.name) {
                let nd = Diagnostics::new(
                    binding.line_number,
                    DiagnosticsType::UnusedLocalLabel(clone_bytes(&binding.name)),
                );
                proof {
                    assert(nd@ == head[0]);
                }
                diagnostics.push(nd);
                proof {
                    assert(diags_view(diagnostics@) =~= diags_view(prev).push(nd@));
                    assert(diags_view(diagnostics@) =~= diags_view(prev).add(head));
                }
            } else {
                proof {
                    assert(diags_view(diagnostics@) =~= diags_view(prev).add(head));
                }
            }
            t = t + 1;
            proof {
                assert(mv.skip(t - 1).skip(1) =~= mv.skip(t as int));
                assert(spec_diagnostics(program@, mv.skip(t - 1)) == head.add(
                    spec_diagnostics(program@, mv.skip(t as int)),
                ));
                assert(diags_view(prev).add(head.add(spec_diagnostics(program@, mv.skip(t as int))))
                    =~= diags_view(prev).add(head).add(
                    spec_diagnostics(program@, mv.skip(t as int)),
                ));
            }
        }
        proof {
            assert(mv.skip(t as int).len() == 0);
            assert(spec_diagnostics(program@, mv.skip(t as int)) =~= Seq::<
                DiagnosticsView,
            >::empty());
            assert(diags_view(diagnostics@).add(Seq::<DiagnosticsView>::empty()) =~= diags_view(
                diagnostics@,
            ));
        }
    }
}

// ---------------------------------------------------------------------
// The program listing.
// ---------------------------------------------------------------------

fn push_byte3(out: &mut Vec<u8>, a: u8, b: u8, c: u8) {
    out.push(a);
    out.push(b);
    out.push(c);
}

fn push_bytes(out: &mut Vec<u8>, v: &Vec<u8>) {
    let mut k: usize = 0;
    while k < v.len()
        decreases v@.len() - k,
    {
        out.push(v[k]);
        k = k + 1;
    }
}

fn push_u32_dec(out: &mut Vec<u8>, n: u32) {
    let mut tmp: Vec<u8> = Vec::new();
    let mut v = n;
    tmp.push(48 + ((v % 10) as u8));
    v = v / 10;
    while v > 0
        decreases v,
    {
        tmp.push(48 + ((v % 10) as u8));
        v = v / 10;
    }
    let mut k = tmp.len();
    while k > 0
        invariant
            k <= tmp@.len(),
        decreases k,
    {
        k = k - 1;
        out.push(tmp[k]);
    }
}

fn push_address(out: &mut Vec<u8>, a: &AddressToken) {
    match a {
        AddressToken::Address(w) => push_u32_dec(out, w.0.0),
        AddressToken::Label(l) => {
            match &l.prefix {
                Some(p) => {
                    push_bytes(out, p);
                    out.push(46);
                },
                None => {},
            }
            push_bytes(out, &l.name);
        },
    }
}

/// A plain listing of the parsed program: one line per statement with
/// its line number, label definitions and content.
fn build_repr(program: &ProgramToken) -> (repr: ProgramRepr) {
    let mut out: Vec<u8> = Vec::new();
    let mut n: usize = 0;
    while n < program.0.len()
        decreases program.0@.len() - n,
    {
        let stmt = &program.0[n];
        push_u32_dec(&mut out, stmt.line_number as u32);
        out.push(58);
        let mut t: usize = 0;
        while t < stmt.label_defs.len()
            decreases stmt.label_defs@.len() - t,
        {
            out.push(32);
            push_bytes(&mut out, &stmt.label_defs[t].0.name);
            out.push(58);
            t = t + 1;
        }
        match &stmt.content {
            Some(StatementContentToken::Data(d)) => {
                out.push(32);
                push_byte3(&mut out, 68, 65, 84);
                out.push(32);
                push_u32_dec(&mut out, d.word().0);
                match d.1 {
                    Some(times) => {
                        out.push(32);
                        push_byte3(&mut out, 84, 73, 77);
                        out.push(69);
                        out.push(83);
                        out.push(32);
                        push_u32_dec(&mut out, times.0.0);
                    },
                    None => {},
                }
            },
            Some(StatementContentToken::Instruction(instr)) => {
                out.push(32);
                match instr {
                    InstructionToken::Add(a) => {
                        push_byte3(&mut out, 65, 68, 68);
                        out.push(32);
                        push_address(&mut out, a);
                    },
                    InstructionToken::And(a) => {
                        push_byte3(&mut out, 65, 78, 68);
                        out.push(32);
                        push_address(&mut out, a);
                    },
                    InstructionToken::Or(a) => {
                        out.push(79);
                        out.push(82);
                        out.push(32);
                        push_address(&mut out, a);
                    },
                    InstructionToken::Xor(a) => {
                        push_byte3(&mut out, 88, 79, 82);
                        out.push(32);
                        push_address(&mut out, a);
                    },
                    InstructionToken::LoadValue(a) => {
                        push_byte3(&mut out, 76, 68, 86);
                        out.push(32);
                        push_address(&mut out, a);
                    },
                    InstructionToken::StoreValue(a) => {
                        push_byte3(&mut out, 83, 84, 86);
                        out.push(32);
                        push_address(&mut out, a);
                    },
                    InstructionToken::LoadConstant(w) => {
                        push_byte3(&mut out, 76, 68, 67);
                        out.push(32);
                        push_u32_dec(&mut out, w.0.0);
                    },
                    InstructionToken::Jump(a) => {
                        push_byte3(&mut out, 74, 77, 80);
                        out.push(32);
                        push_address(&mut out, a);
                    },
                    InstructionToken::JumpIfNegative(a) => {
                        push_byte3(&mut out, 74, 77, 78);
                        out.push(32);
                        push_address(&mut out, a);
                    },
                    InstructionToken::Equals(a) => {
                        push_byte3(&mut out, 69, 81, 76);
                        out.push(32);
                        push_address(&mut out, a);
                    },
                    InstructionToken::Halt => push_byte3(&mut out, 72, 76, 84),
                    InstructionToken::Not => push_byte3(&mut out, 78, 79, 84),
                    InstructionToken::RotateRight(w) => {
                        push_byte3(&mut out, 82, 65, 82);
                        out.push(32);
                        push_u32_dec(&mut out, w.0.0);
                    },
                    InstructionToken::NoOperation => push_byte3(&mut out, 78, 79, 80),
                }
            },
            None => {},
        }
        out.push(10);
        n = n + 1;
    }
    out
}

} // verus!

verus! {

/// The views of a symbol table.
pub open spec fn syms_view(s: Seq<Symbol>) -> Seq<SymbolView> {
    s.map(|k: int, sym: Symbol| sym@)
}

impl ObjectCode {
    /// Assemble a program: parse it, build the label map, emit the
    /// code and the symbol table, and collect unused-label warnings,
    /// together with a plain listing of the parsed program.
    ///
    /// Literal payloads must fit their instruction format; the encoder
    /// asserts as much, so such inputs are left out here.
    #[verifier::rlimit(100)]
    pub fn assemble_with_repr(input: &[u8]) -> (r: Result<
        (ObjectCode, Vec<Diagnostics>, ProgramRepr),
        AssemblerError,
    >)
        requires
            spec_parse_program(input@) matches Ok(prog) ==> program_encodable(prog),
        ensures
            r matches Ok(t) ==> (spec_assemble(input@) matches Ok(v) && t.0@.raw_code == v.0
                && t.0@.symbol_table == v.1 && diags_view(t.1@) == v.2 && t.0@.raw_code.len()
                <= LINEAR_ADDRESS_SPACE_WORDS),
            r matches Err(e) ==> spec_assemble(input@) == Err::<
                (Seq<Word>, Seq<SymbolView>, Seq<DiagnosticsView>),
                AssemblerErrorView,
            >(e@),
    {
        // First, try to parse the program token from the input:
        let program = match ProgramToken::parse(input) {
            Ok(p) => p,
            Err(e) => {
                return Err(AssemblerError::ParserError(e));
            },
        };
        let ghost prog = program@;
        // Collect all the "locally" defined labels, their line numbers
        // and addresses into a map. The pass also tells us the total
        // number of words that is necessary to hold the program.
        let (label_map, number_of_words) = match ObjectCode::build_label_map(&program) {
            Ok(t) => t,
            Err(e) => {
                return Err(e);
            },
        };
        let ghost mv = label_map@.map(|k: int, b: LabelBinding| b@);
        proof {
            lemma_pass1_prefix_bounds(prog, 0, Seq::empty(), 0);
        }
        // Collect diagnostics into a vector:
        let mut diagnostics: Vec<Diagnostics> = Vec::new();
        // Create a word vector with the right capacity (avoids
        // unnecessary allocations) and an empty symbol table:
        let mut raw_code: Vec<Word> = Vec::with_capacity(number_of_words as usize);
        let mut symbols: Vec<Symbol> = Vec::new();
        proof {
            assert(raw_code@ =~= Seq::<Word>::empty());
            assert(syms_view(symbols@) =~= Seq::<SymbolView>::empty());
        }
        // Iterate through the program:
        let mut n: usize = 0;
        while n < program.0.len()
            invariant
                prog == program@,
                spec_parse_program(input@) == Ok::<
                    Seq<StatementView>,
                    crate::assembly::error::ParserErrorView,
                >(prog),
                mv == label_map@.map(|k: int, b: LabelBinding| b@),
                map_wf(mv),
                program_encodable(prog),
                spec_build_label_map(prog) == Ok::<
                    (Seq<BindingView>, int),
                    AssemblerErrorView,
                >((mv, number_of_words as int)),
                n <= prog.len(),
                raw_code@.len() == words_before(prog, n as int),
                forall|j: int|
                    0 <= j <= prog.len() ==> #[trigger] words_before(prog, j)
                        <= LINEAR_ADDRESS_SPACE_WORDS,
                pass2_stmts(prog, 0, mv, Seq::empty(), Seq::empty()) == pass2_stmts(
                    prog,
                    n as int,
                    mv,
                    raw_code@,
                    syms_view(symbols@),
                ),
            decreases prog.len() - n,
        {
            let stmt = &program.0[n];
            let ghost stv = prog[n as int];
            proof {
                assert(stv == program.0@[n as int]@);
                assert(words_before(prog, n + 1) == words_before(prog, n as int)
                    + spec_required_words(stv));
                assert(words_before(prog, n + 1) <= LINEAR_ADDRESS_SPACE_WORDS);
            }
            match &stmt.content {
                Some(StatementContentToken::Data(data)) => {
                    let w = data.word();
                    let times = data.times();
                    let ghost code_entry = raw_code@;
                    let mut c: usize = 0;
                    while c < times
                        invariant
                            c <= times,
                            times as int == spec_required_words(stv),
                            code_entry.len() + times <= LINEAR_ADDRESS_SPACE_WORDS,
                            raw_code@ == code_entry + Seq::new(c as nat, |q: int| w),
                        decreases times - c,
                    {
                        raw_code.push(w);
                        c = c + 1;
                        proof {
                            assert(raw_code@ =~= code_entry + Seq::new(c as nat, |q: int| w));
                        }
                    }
                    proof {
                        match stv.content {
                            Some(ContentView::Data(dv)) => {
                                assert(raw_code@ =~= code_entry + Seq::new(
                                    dv.spec_times() as nat,
                                    |q: int| dv.spec_word(),
                                ));
                            },
                            _ => {
                                assert(false);
                            },
                        }
                    }
                    n = n + 1;
                },
                Some(StatementContentToken::Instruction(instr)) => {
                    // Get addr and line number of the instruction:
                    let instruction_address = Word(raw_code.len() as u32);
                    proof {
                        assert(statement_encodable(stv));
                    }
                    let ghost syms_entry = syms_view(symbols@);
                    // Assemble it:
                    let word = match ObjectCode::emit_instruction(
                        instr,
                        &label_map,
                        instruction_address,
                        stmt.line_number,
                        &mut symbols,
                    ) {
                        Ok(w) => w,
                        Err(e) => {
                            proof {
                                match stv.content {
                                    Some(ContentView::Instruction(iv)) => {
                                        assert(iv == instr@);
                                        assert(pass2_stmts(
                                            prog,
                                            n as int,
                                            mv,
                                            raw_code@,
                                            syms_view(symbols@),
                                        ) == Err::<
                                            (Seq<Word>, Seq<SymbolView>),
                                            AssemblerErrorView,
                                        >(AssemblerErrorView::Label(e@)));
                                    },
                                    _ => {
                                        assert(false);
                                    },
                                }
                            }
                            return Err(AssemblerError::LabelError(e));
                        },
                    };
                    raw_code.push(word);
                    n = n + 1;
                },
                None => {
                    n = n + 1;
                },
            }
        }
        // Now consume the list of local labels and generate warning
        // diagnostics for unused ones:
        ObjectCode::find_unused_labels(&program, &label_map, &mut diagnostics);
        proof {
            assert(diags_view(Seq::<Diagnostics>::empty()) =~= Seq::<DiagnosticsView>::empty());
            assert(Seq::<DiagnosticsView>::empty().add(spec_diagnostics(prog, mv)) =~= spec_diagnostics(
                prog,
                mv,
            ));
        }
        // Build the plain program listing:
        let repr = build_repr(&program);
        // Bundle code and symbol table into an object code struct and
        // return it, along with the diagnostics:
        let object_code = ObjectCode { raw_code, symbol_table: symbols };
        Ok((object_code, diagnostics, repr))
    }

    /// Assemble a program, without the listing.
    pub fn assemble(input: &[u8]) -> (r: Result<(ObjectCode, Vec<Diagnostics>), AssemblerError>)
        requires
            spec_parse_program(input@) matches Ok(prog) ==> program_encodable(prog),
        ensures
            r matches Ok(t) ==> (spec_assemble(input@) matches Ok(v) && t.0@.raw_code == v.0
                && t.0@.symbol_table == v.1 && diags_view(t.1@) == v.2 && t.0@.raw_code.len()
                <= LINEAR_ADDRESS_SPACE_WORDS),
            r matches Err(e) ==> spec_assemble(input@) == Err::<
                (Seq<Word>, Seq<SymbolView>, Seq<DiagnosticsView>),
                AssemblerErrorView,
            >(e@),
    {
        // Omit the listing of the program:
        match ObjectCode::assemble_with_repr(input) {
            Ok((object_code, diagnostics, _)) => Ok((object_code, diagnostics)),
            Err(e) => Err(e),
        }
    }
}

} // verus!

verus! {

// ---------------------------------------------------------------------
// Symbol-table completeness.
// ---------------------------------------------------------------------

pub open spec fn address_external_ref(a: AddressView) -> Option<LabelView> {
    match a {
        AddressView::Label(l) => match l.prefix {
            Some(p) => Some(LabelView { prefix: p, name: l.name }),
            None => None,
        },
        AddressView::Address(_) => None,
    }
}

pub open spec fn instruction_external_ref(iv: InstructionView) -> Option<LabelView> {
    match iv {
        InstructionView::Add(a) => address_external_ref(a),
        InstructionView::And(a) => address_external_ref(a),
        InstructionView::Or(a) => address_external_ref(a),
        InstructionView::Xor(a) => address_external_ref(a),
        InstructionView::LoadValue(a) => address_external_ref(a),
        InstructionView::StoreValue(a) => address_external_ref(a),
        InstructionView::Jump(a) => address_external_ref(a),
        InstructionView::JumpIfNegative(a) => address_external_ref(a),
        InstructionView::Equals(a) => address_external_ref(a),
        _ => None,
    }
}

pub open spec fn statement_external_ref(st: StatementView) -> Option<LabelView> {
    match st.content {
        Some(ContentView::Instruction(iv)) => instruction_external_ref(iv),
        _ => None,
    }
}

/// The externally-prefixed references of the statements from index `n`
/// on, in program order, each paired with the emission offset of its
/// instruction.
pub open spec fn external_refs(stmts: Seq<StatementView>, n: int) -> Seq<SymbolView>
    decreases stmts.len() - n,
{
    if !(0 <= n < stmts.len()) {
        Seq::empty()
    } else {
        let rest = external_refs(stmts, n + 1);
        match statement_external_ref(stmts[n]) {
            Some(lv) => seq![
                SymbolView {
                    instruction_address: Word(words_before(stmts, n) as u32),
                    label: lv,
                },
            ].add(rest),
            None => rest,
        }
    }
}

proof fn lemma_pass2_symbols(
    stmts: Seq<StatementView>,
    n: int,
    m: Seq<BindingView>,
    code: Seq<Word>,
    syms: Seq<SymbolView>,
)
    requires
        0 <= n <= stmts.len(),
        code.len() == words_before(stmts, n),
        pass2_stmts(stmts, n, m, code, syms) matches Ok(_),
    ensures
        pass2_stmts(stmts, n, m, code, syms) matches Ok(t) ==> t.1 == syms.add(
            external_refs(stmts, n),
        ),
    decreases stmts.len() - n,
{
    if !(0 <= n < stmts.len()) {
        assert(external_refs(stmts, n) =~= Seq::<SymbolView>::empty());
        assert(syms.add(Seq::<SymbolView>::empty()) =~= syms);
    } else {
        let st = stmts[n];
        assert(words_before(stmts, n + 1) == words_before(stmts, n) + spec_required_words(st));
        match st.content {
            None => {
                lemma_pass2_symbols(stmts, n + 1, m, code, syms);
            },
            Some(ContentView::Data(d)) => {
                lemma_pass2_symbols(
                    stmts,
                    n + 1,
                    m,
                    code + Seq::new(d.spec_times() as nat, |q: int| d.spec_word()),
                    syms,
                );
            },
            Some(ContentView::Instruction(iv)) => {
                match spec_emit_instruction(iv, m, Word(code.len() as u32), st.line_number) {
                    Err(_) => {},
                    Ok((w, None)) => {
                        lemma_pass2_symbols(stmts, n + 1, m, code.push(w), syms);
                    },
                    Ok((w, Some(sym))) => {
                        lemma_pass2_symbols(stmts, n + 1, m, code.push(w), syms.push(sym));
                        assert(syms.push(sym).add(external_refs(stmts, n + 1)) =~= syms.add(
                            seq![sym].add(external_refs(stmts, n + 1)),
                        ));
                    },
                }
            },
        }
    }
}

/// Symbol-table completeness: a successful assembly's symbol table
/// holds exactly one entry per externally-prefixed reference, in
/// program order, each carrying the emission offset of its instruction
/// as the instruction address.
pub proof fn lemma_symbol_table_completeness(input: Seq<u8>)
    requires
        spec_assemble(input) matches Ok(_),
    ensures
        spec_assemble(input) matches Ok(v) ==> (spec_parse_program(input) matches Ok(prog) && v.1
            == external_refs(prog, 0)),
{
    match spec_parse_program(input) {
        Ok(prog) => {
            match spec_build_label_map(prog) {
                Ok((m, total)) => {
                    match pass2_stmts(prog, 0, m, Seq::empty(), Seq::empty()) {
                        Ok(_) => {
                            lemma_pass2_symbols(prog, 0, m, Seq::empty(), Seq::empty());
                            assert(Seq::<SymbolView>::empty().add(external_refs(prog, 0))
                                =~= external_refs(prog, 0));
                        },
                        Err(_) => {},
                    }
                },
                Err(_) => {},
            }
        },
        Err(_) => {},
    }
}

} // verus!
