//! The linker: loads object files one after another and links them into an executable image.
use vstd::prelude::*;
use vstd::slice::slice_to_vec;

use crate::assembler::{relocations_sound, word_at};
use crate::indexed_vec::MAX_LEN;
use crate::object::{
    apart, be_bytes, be_word, spec_from_binary, ObjectFile, ObjectModel,
    ObjectParseErr,
};
use crate::symbols::SymbolTable;
use crate::symbols::chars_eq;
use crate::text::chars_of;

verus! {

/// Bytes of the `JMP <entry>` trampoline that precedes the linked code.
pub const TRAMPOLINE_BYTES: usize = 3;

/// Links object files into an executable. Objects are laid out in load order after the
/// trampoline; each object's base address is where its bytecode starts.
pub struct Linker {
    objects: Vec<ObjectFile>,
    global_symbols: SymbolTable,
}

/// Why an object file could not be loaded.
#[derive(Debug, Clone, Copy, PartialEq, Eq, Structural)]
pub enum ObjectLoadError {
    ParseError(ObjectParseErr),
    ObjectOverflow,
}

/// Why linking failed.
#[derive(Debug, PartialEq, Eq)]
pub enum LinkError {
    EntryPointNotFound(String),
    TotalSizeExceedsLimit(usize),
    InvalidRelocationOffset { object_name: String, offset: u16 },
    UndefinedSymbol { symbol: String, object_name: String },
}

/// A link error with its names as character sequences.
pub enum LinkErrorView {
    EntryPointNotFound(Seq<char>),
    TotalSizeExceedsLimit(usize),
    InvalidRelocationOffset { object_name: Seq<char>, offset: u16 },
    UndefinedSymbol { symbol: Seq<char>, object_name: Seq<char> },
}

impl View for LinkError {
    type V = LinkErrorView;

    open spec fn view(&self) -> LinkErrorView {
        match self {
            LinkError::EntryPointNotFound(s) => LinkErrorView::EntryPointNotFound(s@),
            LinkError::TotalSizeExceedsLimit(n) => LinkErrorView::TotalSizeExceedsLimit(*n),
            LinkError::InvalidRelocationOffset { object_name, offset } => {
                LinkErrorView::InvalidRelocationOffset { object_name: object_name@, offset: *offset }
            },
            LinkError::UndefinedSymbol { symbol, object_name } => LinkErrorView::UndefinedSymbol {
                symbol: symbol@,
                object_name: object_name@,
            },
        }
    }
}

/// The abstract state of a linker: the loaded objects in load order and the global symbols.
#[verifier::ext_equal]
pub struct LinkerModel {
    pub objects: Seq<ObjectModel>,
    pub symbols: Map<Seq<char>, u16>,
}

impl View for Linker {
    type V = LinkerModel;

    closed spec fn view(&self) -> LinkerModel {
        LinkerModel {
            objects: self.objects@.map_values(|o: ObjectFile| o@),
            symbols: self.global_symbols@,
        }
    }
}

impl Default for Linker {
    fn default() -> (r: Linker)
        ensures
            r@.objects == Seq::<ObjectModel>::empty(),
            r@.symbols == Map::<Seq<char>, u16>::empty(),
    {
        Linker::new()
    }
}

/// The total bytecode length of the first `k` objects.
pub open spec fn code_len_sum(objs: Seq<ObjectModel>, k: int) -> int
    decreases k,
{
    if k <= 0 {
        0
    } else {
        code_len_sum(objs, k - 1) + objs[k - 1].bytecode.len()
    }
}

/// Where the next loaded object's bytecode would start.
pub open spec fn next_base(l: LinkerModel) -> int {
    TRAMPOLINE_BYTES + code_len_sum(l.objects, l.objects.len() as int)
}

/// Every loaded object starts right after the trampoline and the objects loaded before it, and
/// within the 16-bit address space; no object is longer than an `IndexedVec` allows.
pub open spec fn layout_ok(objs: Seq<ObjectModel>) -> bool {
    forall|k: int|
        0 <= k < objs.len() ==> {
            &&& #[trigger] objs[k].base_address == TRAMPOLINE_BYTES + code_len_sum(objs, k)
            &&& TRAMPOLINE_BYTES + code_len_sum(objs, k) <= 0xFFFF
            &&& objs[k].bytecode.len() <= MAX_LEN
        }
}

/// Every export's address (base plus offset) fits 16 bits.
pub open spec fn exports_fit(es: Seq<(Seq<char>, u16)>, base: int) -> bool {
    forall|i: int| 0 <= i < es.len() ==> base + (#[trigger] es[i]).1 <= 0xFFFF
}

/// The symbol table after defining each export at base plus its offset, in order.
pub open spec fn add_exports(syms: Map<Seq<char>, u16>, es: Seq<(Seq<char>, u16)>, base: int) -> Map<
    Seq<char>,
    u16,
>
    decreases es.len(),
{
    if es.len() == 0 {
        syms
    } else {
        add_exports(syms, es.drop_last(), base).insert(es.last().0, (base + es.last().1) as u16)
    }
}

/// The names among the exports `es` that are already defined when each is added to `syms` in
/// order: those defined in `syms` and those exported earlier in `es`, in order.
pub open spec fn redefined(syms: Map<Seq<char>, u16>, es: Seq<(Seq<char>, u16)>) -> Seq<Seq<char>>
    decreases es.len(),
{
    if es.len() == 0 {
        Seq::empty()
    } else {
        redefined(syms, es.drop_last()) + if add_exports(syms, es.drop_last(), 0).contains_key(
            es.last().0,
        ) {
            seq![es.last().0]
        } else {
            Seq::empty()
        }
    }
}

/// A name is defined after adding exports exactly when it was defined before or is among them.
proof fn lemma_add_exports_dom(syms: Map<Seq<char>, u16>, es: Seq<(Seq<char>, u16)>, base: int, n: Seq<char>)
    ensures
        add_exports(syms, es, base).contains_key(n) <==> (syms.contains_key(n) || exists|j: int|
            0 <= j < es.len() && (#[trigger] es[j]).0 == n),
    decreases es.len(),
{
    if es.len() > 0 {
        let init = es.drop_last();
        lemma_add_exports_dom(syms, init, base, n);
        if exists|j: int| 0 <= j < init.len() && (#[trigger] init[j]).0 == n {
            let j = choose|j: int| 0 <= j < init.len() && (#[trigger] init[j]).0 == n;
            assert(es[j] == init[j]);
        }
        if exists|j: int| 0 <= j < es.len() && (#[trigger] es[j]).0 == n {
            let j = choose|j: int| 0 <= j < es.len() && (#[trigger] es[j]).0 == n;
            if j < init.len() {
                assert(init[j] == es[j]);
            }
        }
    }
}

/// Loading the object encoded in `data` under `name`: it is decoded at the next base address,
/// its exports are defined globally (a later definition wins), and it is appended.
pub open spec fn spec_load(l: LinkerModel, name: Seq<char>, data: Seq<u8>) -> (
    LinkerModel,
    Result<(), ObjectLoadError>,
) {
    let base = next_base(l);
    if base > 0xFFFF {
        (l, Err(ObjectLoadError::ObjectOverflow))
    } else {
        match spec_from_binary(data, name, base as u16) {
            Err(e) => (l, Err(ObjectLoadError::ParseError(e))),
            Ok(o) => if !exports_fit(o.exports, base) {
                (l, Err(ObjectLoadError::ObjectOverflow))
            } else {
                (
                    LinkerModel {
                        objects: l.objects.push(o),
                        symbols: add_exports(l.symbols, o.exports, base),
                    },
                    Ok(()),
                )
            },
        }
    }
}

/// The magic bytes of an executable: `"vmrx"`.
pub open spec fn executable_magic() -> Seq<u8> {
    seq![0x76u8, 0x6Du8, 0x72u8, 0x78u8]
}

/// `c` with the big-endian word `v` written at `idx`.
pub open spec fn write_word(c: Seq<u8>, idx: int, v: u16) -> Seq<u8> {
    c.update(idx, (v / 256) as u8).update(idx + 1, (v % 256) as u8)
}

/// Checks that a two-byte patch at `idx` lies inside `c`.
pub open spec fn patch_bounds(c: Seq<u8>, idx: u16, name: Seq<char>) -> Result<(), LinkErrorView> {
    if idx >= c.len() {
        Err(LinkErrorView::InvalidRelocationOffset { object_name: name, offset: idx })
    } else if idx + 1 >= c.len() {
        Err(LinkErrorView::InvalidRelocationOffset { object_name: name, offset: (idx + 1) as u16 })
    } else {
        Ok(())
    }
}

/// An internal relocation: the word at `idx` gets the object's base address added (modulo
/// 2^16).
pub open spec fn internal_step(c: Seq<u8>, idx: u16, base: u16, name: Seq<char>) -> Result<
    Seq<u8>,
    LinkErrorView,
> {
    match patch_bounds(c, idx, name) {
        Err(e) => Err(e),
        Ok(()) => Ok(
            write_word(
                c,
                idx as int,
                ((be_word(c[idx as int], c[idx + 1]) + base) % 0x10000) as u16,
            ),
        ),
    }
}

pub open spec fn patch_internal(c: Seq<u8>, rels: Seq<u16>, base: u16, name: Seq<char>) -> Result<
    Seq<u8>,
    LinkErrorView,
>
    decreases rels.len(),
{
    if rels.len() == 0 {
        Ok(c)
    } else {
        match patch_internal(c, rels.drop_last(), base, name) {
            Err(e) => Err(e),
            Ok(c1) => internal_step(c1, rels.last(), base, name),
        }
    }
}

/// An external relocation: the word at its offset becomes the global address of its symbol.
pub open spec fn external_step(
    c: Seq<u8>,
    rel: (Seq<char>, u16),
    syms: Map<Seq<char>, u16>,
    name: Seq<char>,
) -> Result<Seq<u8>, LinkErrorView> {
    if !syms.contains_key(rel.0) {
        Err(LinkErrorView::UndefinedSymbol { symbol: rel.0, object_name: name })
    } else {
        match patch_bounds(c, rel.1, name) {
            Err(e) => Err(e),
            Ok(()) => Ok(write_word(c, rel.1 as int, syms[rel.0])),
        }
    }
}

pub open spec fn patch_external(
    c: Seq<u8>,
    rels: Seq<(Seq<char>, u16)>,
    syms: Map<Seq<char>, u16>,
    name: Seq<char>,
) -> Result<Seq<u8>, LinkErrorView>
    decreases rels.len(),
{
    if rels.len() == 0 {
        Ok(c)
    } else {
        match patch_external(c, rels.drop_last(), syms, name) {
            Err(e) => Err(e),
            Ok(c1) => external_step(c1, rels.last(), syms, name),
        }
    }
}

/// An object's bytecode with its internal, then its external, relocations applied.
pub open spec fn patch_object(o: ObjectModel, syms: Map<Seq<char>, u16>) -> Result<
    Seq<u8>,
    LinkErrorView,
> {
    match patch_internal(o.bytecode, o.internal_relocations, o.base_address, o.name) {
        Err(e) => Err(e),
        Ok(c) => patch_external(c, o.external_relocations, syms, o.name),
    }
}

/// The patched bytecode of all objects, concatenated in load order.
pub open spec fn patch_objects(objs: Seq<ObjectModel>, syms: Map<Seq<char>, u16>) -> Result<
    Seq<u8>,
    LinkErrorView,
>
    decreases objs.len(),
{
    if objs.len() == 0 {
        Ok(Seq::empty())
    } else {
        match patch_objects(objs.drop_last(), syms) {
            Err(e) => Err(e),
            Ok(prefix) => match patch_object(objs.last(), syms) {
                Err(e) => Err(e),
                Ok(c) => Ok(prefix + c),
            },
        }
    }
}

/// The executable image: `"vmrx"`, `JMP <entry>`, then the patched bytecode of all objects.
pub open spec fn spec_link(l: LinkerModel, entry: Seq<char>) -> Result<Seq<u8>, LinkErrorView> {
    if !l.symbols.contains_key(entry) {
        Err(LinkErrorView::EntryPointNotFound(entry))
    } else {
        let total = code_len_sum(l.objects, l.objects.len() as int);
        if total > 0xFFFF {
            Err(LinkErrorView::TotalSizeExceedsLimit(total as usize))
        } else {
            match patch_objects(l.objects, l.symbols) {
                Err(e) => Err(e),
                Ok(code) => Ok(
                    executable_magic() + seq![0xB0u8] + be_bytes(l.symbols[entry]) + code,
                ),
            }
        }
    }
}

proof fn lemma_code_len_sum_prefix(objs: Seq<ObjectModel>, o: ObjectModel, k: int)
    requires
        0 <= k <= objs.len(),
    ensures
        code_len_sum(objs.push(o), k) == code_len_sum(objs, k),
    decreases k,
{
    if k > 0 {
        lemma_code_len_sum_prefix(objs, o, k - 1);
        assert(objs.push(o)[k - 1] == objs[k - 1]);
    }
}

/// Appending an object at the next base address keeps the layout.
proof fn lemma_layout_push(objs: Seq<ObjectModel>, o: ObjectModel)
    requires
        layout_ok(objs),
        o.base_address == TRAMPOLINE_BYTES + code_len_sum(objs, objs.len() as int),
        TRAMPOLINE_BYTES + code_len_sum(objs, objs.len() as int) <= 0xFFFF,
        o.bytecode.len() <= MAX_LEN,
    ensures
        layout_ok(objs.push(o)),
{
    assert forall|k: int| 0 <= k < objs.len() + 1 implies {
        &&& #[trigger] objs.push(o)[k].base_address == TRAMPOLINE_BYTES + code_len_sum(
            objs.push(o),
            k,
        )
        &&& TRAMPOLINE_BYTES + code_len_sum(objs.push(o), k) <= 0xFFFF
        &&& objs.push(o)[k].bytecode.len() <= MAX_LEN
    } by {
        lemma_code_len_sum_prefix(objs, o, k);
        if k < objs.len() {
            assert(objs.push(o)[k] == objs[k]);
            assert(objs[k].base_address == TRAMPOLINE_BYTES + code_len_sum(objs, k));
        }
    }
}

proof fn lemma_code_len_sum_nonneg(objs: Seq<ObjectModel>, k: int)
    ensures
        code_len_sum(objs, k) >= 0,
    decreases k,
{
    if k > 0 {
        lemma_code_len_sum_nonneg(objs, k - 1);
    }
}

proof fn lemma_internal_err_persists(c: Seq<u8>, rels: Seq<u16>, base: u16, name: Seq<char>, k: int)
    requires
        0 <= k <= rels.len(),
        patch_internal(c, rels.take(k), base, name) is Err,
    ensures
        patch_internal(c, rels, base, name) == patch_internal(c, rels.take(k), base, name),
    decreases rels.len() - k,
{
    if k < rels.len() {
        assert(rels.take(k + 1).drop_last() =~= rels.take(k));
        lemma_internal_err_persists(c, rels, base, name, k + 1);
    } else {
        assert(rels.take(k) =~= rels);
    }
}

proof fn lemma_external_err_persists(
    c: Seq<u8>,
    rels: Seq<(Seq<char>, u16)>,
    syms: Map<Seq<char>, u16>,
    name: Seq<char>,
    k: int,
)
    requires
        0 <= k <= rels.len(),
        patch_external(c, rels.take(k), syms, name) is Err,
    ensures
        patch_external(c, rels, syms, name) == patch_external(c, rels.take(k), syms, name),
    decreases rels.len() - k,
{
    if k < rels.len() {
        assert(rels.take(k + 1).drop_last() =~= rels.take(k));
        lemma_external_err_persists(c, rels, syms, name, k + 1);
    } else {
        assert(rels.take(k) =~= rels);
    }
}

proof fn lemma_objects_err_persists(objs: Seq<ObjectModel>, syms: Map<Seq<char>, u16>, k: int)
    requires
        0 <= k <= objs.len(),
        patch_objects(objs.take(k), syms) is Err,
    ensures
        patch_objects(objs, syms) == patch_objects(objs.take(k), syms),
    decreases objs.len() - k,
{
    if k < objs.len() {
        assert(objs.take(k + 1).drop_last() =~= objs.take(k));
        lemma_objects_err_persists(objs, syms, k + 1);
    } else {
        assert(objs.take(k) =~= objs);
    }
}

fn push_be(out: &mut Vec<u8>, x: u16)
    ensures
        final(out)@ == old(out)@ + be_bytes(x),
{
    out.push((x / 256) as u8);
    out.push((x % 256) as u8);
    assert(final(out)@ =~= old(out)@ + be_bytes(x));
}

/// Checks that a two-byte patch at `idx` lies inside `code`.
fn check_bounds(code: &Vec<u8>, idx: u16, name: &String) -> (r: Result<(), LinkError>)
    requires
        code@.len() <= MAX_LEN,
    ensures
        match patch_bounds(code@, idx, name@) {
            Ok(()) => r is Ok,
            Err(e) => r matches Err(x) && x@ == e,
        },
{
    if idx as usize >= code.len() {
        return Err(LinkError::InvalidRelocationOffset { object_name: name.clone(), offset: idx });
    }
    if idx as usize + 1 >= code.len() {
        return Err(
            LinkError::InvalidRelocationOffset { object_name: name.clone(), offset: idx + 1 },
        );
    }
    Ok(())
}

fn write_word_at(code: &mut Vec<u8>, idx: usize, v: u16)
    requires
        idx + 1 < old(code)@.len(),
    ensures
        final(code)@ == write_word(old(code)@, idx as int, v),
{
    let n = code.len();
    code.set(idx, (v / 256) as u8);
    code.set(idx + 1, (v % 256) as u8);
}

fn apply_internal(code: &mut Vec<u8>, rels: &[u16], base: u16, name: &String) -> (r: Result<
    (),
    LinkError,
>)
    requires
        old(code)@.len() <= MAX_LEN,
    ensures
        final(code)@.len() == old(code)@.len(),
        match patch_internal(old(code)@, rels@, base, name@) {
            Ok(c) => r is Ok && final(code)@ == c,
            Err(e) => r matches Err(x) && x@ == e,
        },
{
    let ghost c0 = code@;
    let mut j: usize = 0;
    assert(rels@.take(0) =~= Seq::<u16>::empty());
    while j < rels.len()
        invariant
            c0 == old(code)@,
            code@.len() == c0.len(),
            c0.len() <= MAX_LEN,
            j <= rels@.len(),
            patch_internal(c0, rels@.take(j as int), base, name@) == Ok::<Seq<u8>, LinkErrorView>(
                code@,
            ),
        decreases rels@.len() - j,
    {
        let idx = rels[j];
        assert(rels@.take(j + 1).drop_last() =~= rels@.take(j as int));
        assert(rels@.take(j + 1).last() == idx);
        match check_bounds(code, idx, name) {
            Ok(()) => {},
            Err(e) => {
                proof {
                    lemma_internal_err_persists(c0, rels@, base, name@, j + 1);
                }
                return Err(e);
            },
        }
        let i = idx as usize;
        let addend = code[i] as u16 * 256 + code[i + 1] as u16;
        let v = ((addend as u32 + base as u32) % 0x10000) as u16;
        write_word_at(code, i, v);
        j += 1;
    }
    assert(rels@.take(j as int) =~= rels@);
    Ok(())
}

fn apply_external(
    code: &mut Vec<u8>,
    rels: &[(String, u16)],
    symbols: &SymbolTable,
    name: &String,
) -> (r: Result<(), LinkError>)
    requires
        old(code)@.len() <= MAX_LEN,
    ensures
        final(code)@.len() == old(code)@.len(),
        match patch_external(
            old(code)@,
            rels@.map_values(|p: (String, u16)| (p.0@, p.1)),
            symbols@,
            name@,
        ) {
            Ok(c) => r is Ok && final(code)@ == c,
            Err(e) => r matches Err(x) && x@ == e,
        },
{
    let ghost c0 = code@;
    let ghost rv = rels@.map_values(|p: (String, u16)| (p.0@, p.1));
    let mut j: usize = 0;
    assert(rv.take(0) =~= Seq::<(Seq<char>, u16)>::empty());
    while j < rels.len()
        invariant
            c0 == old(code)@,
            code@.len() == c0.len(),
            c0.len() <= MAX_LEN,
            rv == rels@.map_values(|p: (String, u16)| (p.0@, p.1)),
            j <= rels@.len(),
            patch_external(c0, rv.take(j as int), symbols@, name@) == Ok::<
                Seq<u8>,
                LinkErrorView,
            >(code@),
        decreases rels@.len() - j,
    {
        let (label, idx) = &rels[j];
        assert(rv.take(j + 1).drop_last() =~= rv.take(j as int));
        assert(rv.take(j + 1).last() == (label@, *idx));
        let label_chars = chars_of(label.as_str());
        let addr = match symbols.get(label_chars.as_slice(), 0, label_chars.len()) {
            Some(a) => a,
            None => {
                assert(label_chars@.subrange(0, label_chars@.len() as int) =~= label@);
                proof {
                    lemma_external_err_persists(c0, rv, symbols@, name@, j + 1);
                }
                return Err(
                    LinkError::UndefinedSymbol { symbol: label.clone(), object_name: name.clone() },
                );
            },
        };
        assert(label_chars@.subrange(0, label_chars@.len() as int) =~= label@);
        match check_bounds(code, *idx, name) {
            Ok(()) => {},
            Err(e) => {
                proof {
                    lemma_external_err_persists(c0, rv, symbols@, name@, j + 1);
                }
                return Err(e);
            },
        }
        write_word_at(code, *idx as usize, addr);
        j += 1;
    }
    assert(rv.take(j as int) =~= rv);
    Ok(())
}

impl Linker {
    #[verifier::type_invariant]
    spec fn inv(self) -> bool {
        layout_ok(self.objects@.map_values(|o: ObjectFile| o@))
    }

    /// A linker with no objects and no symbols.
    pub fn new() -> (r: Linker)
        ensures
            r@.objects == Seq::<ObjectModel>::empty(),
            r@.symbols == Map::<Seq<char>, u16>::empty(),
    {
        let r = Linker { objects: Vec::new(), global_symbols: SymbolTable::new() };
        assert(r@.objects =~= Seq::<ObjectModel>::empty());
        r
    }

    /// The total bytecode length of the loaded objects.
    fn code_size(&self) -> (r: usize)
        ensures
            r == code_len_sum(self@.objects, self@.objects.len() as int),
    {
        proof {
            use_type_invariant(self);
        }
        let ghost objs = self@.objects;
        let mut sum: usize = 0;
        let mut i: usize = 0;
        while i < self.objects.len()
            invariant
                objs == self@.objects,
                objs.len() == self.objects@.len(),
                layout_ok(objs),
                i <= objs.len(),
                sum == code_len_sum(objs, i as int),
            decreases objs.len() - i,
        {
            assert(objs[i as int] == self.objects@[i as int]@);
            assert(objs[i as int].base_address == TRAMPOLINE_BYTES + code_len_sum(objs, i as int));
            let n = self.objects[i].bytecode.len();
            sum = sum + n as usize;
            i += 1;
        }
        sum
    }

    /// Whether `name` is defined in the global symbol table.
    pub fn has_symbol(&self, name: &str) -> (r: bool)
        ensures
            r == self@.symbols.contains_key(name@),
    {
        let cs = chars_of(name);
        assert(cs@.subrange(0, cs@.len() as int) =~= name@);
        self.global_symbols.get(cs.as_slice(), 0, cs.len()).is_some()
    }

    /// The exports of `object` whose names are already defined when it is loaded, in order:
    /// names that are global symbols, and names that `object` exports more than once (each
    /// repetition after the first). Loading the object redefines them.
    pub fn redefined_exports(&self, object: &ObjectFile) -> (r: Vec<String>)
        ensures
            r@.map_values(|s: String| s@) == redefined(self@.symbols, object@.exports),
    {
        let es = object.exports.as_slice();
        let ghost ev = object@.exports;
        let ghost syms = self@.symbols;
        let mut out: Vec<String> = Vec::new();
        let mut i: usize = 0;
        assert(ev.take(0) =~= Seq::<(Seq<char>, u16)>::empty());
        assert(out@.map_values(|s: String| s@) =~= Seq::<Seq<char>>::empty());
        while i < es.len()
            invariant
                ev == object@.exports,
                syms == self@.symbols,
                ev == es@.map_values(|p: (String, u16)| (p.0@, p.1)),
                i <= es@.len(),
                out@.map_values(|s: String| s@) == redefined(syms, ev.take(i as int)),
            decreases es@.len() - i,
        {
            let label = &es[i].0;
            let cs = chars_of(label.as_str());
            assert(cs@.subrange(0, cs@.len() as int) =~= cs@);
            let mut defined = self.global_symbols.get(cs.as_slice(), 0, cs.len()).is_some();
            let mut j: usize = 0;
            while j < i
                invariant
                    ev == es@.map_values(|p: (String, u16)| (p.0@, p.1)),
                    i < es@.len(),
                    j <= i,
                    cs@ == label@,
                    *label == es@[i as int].0,
                    defined == (syms.contains_key(cs@) || exists|k: int|
                        0 <= k < j && (#[trigger] ev[k]).0 == cs@),
                decreases i - j,
            {
                let other = chars_of(es[j].0.as_str());
                assert(ev[j as int] == (es@[j as int].0@, es@[j as int].1));
                if chars_eq(other.as_slice(), 0, other.len(), cs.as_slice()) {
                    assert(other@.subrange(0, other@.len() as int) =~= other@);
                    defined = true;
                } else {
                    assert(other@.subrange(0, other@.len() as int) =~= other@);
                }
                j += 1;
            }
            let ghost init = ev.take(i as int);
            assert(ev.take(i + 1).drop_last() =~= init);
            assert(ev.take(i + 1).last() == ev[i as int]);
            assert(ev[i as int] == (label@, es@[i as int].1));
            proof {
                lemma_add_exports_dom(syms, init, 0, label@);
                assert((exists|k: int| 0 <= k < i && (#[trigger] ev[k]).0 == cs@) <==> (exists|
                    k: int,
                | 0 <= k < init.len() && (#[trigger] init[k]).0 == cs@)) by {
                    if exists|k: int| 0 <= k < i && (#[trigger] ev[k]).0 == cs@ {
                        let k = choose|k: int| 0 <= k < i && (#[trigger] ev[k]).0 == cs@;
                        assert(init[k] == ev[k]);
                    }
                    if exists|k: int| 0 <= k < init.len() && (#[trigger] init[k]).0 == cs@ {
                        let k = choose|k: int| 0 <= k < init.len() && (#[trigger] init[k]).0 == cs@;
                        assert(init[k] == ev[k]);
                    }
                }
            }
            let ghost before = out@;
            if defined {
                out.push(label.clone());
                assert(out@.map_values(|s: String| s@) =~= before.map_values(|s: String| s@).push(
                    label@,
                ));
            }
            i += 1;
            assert(out@.map_values(|s: String| s@) =~= redefined(syms, ev.take(i as int)));
        }
        assert(ev.take(i as int) =~= ev);
        out
    }

    /// Loads the object encoded in `data` under `name`. It is placed after the objects loaded
    /// before it; its exports become global symbols at base address plus offset, replacing
    /// earlier definitions of the same names. `ObjectOverflow` when the object would start, or
    /// an export would lie, beyond the 16-bit address space.
    #[verifier::loop_isolation(false)]
    #[verifier::spinoff_prover]
    pub fn load_object(&mut self, name: &str, data: &[u8]) -> (r: Result<(), ObjectLoadError>)
        ensures
            (final(self)@, r) == spec_load(old(self)@, name@, data@),
    {
        proof {
            use_type_invariant(&*self);
        }
        let current = self.code_size();
        if current > 0xFFFF - TRAMPOLINE_BYTES {
            return Err(ObjectLoadError::ObjectOverflow);
        }
        let base_address = (current + TRAMPOLINE_BYTES) as u16;
        let object = match ObjectFile::from_binary(data, name, base_address) {
            Ok(o) => o,
            Err(e) => return Err(ObjectLoadError::ParseError(e)),
        };
        let exports = object.exports.as_slice();
        let ghost ev = object@.exports;
        let mut i: usize = 0;
        while i < exports.len()
            invariant
                ev == object@.exports,
                ev.len() == exports@.len(),
                ev == exports@.map_values(|p: (String, u16)| (p.0@, p.1)),
                i <= exports@.len(),
                forall|j: int| 0 <= j < i ==> base_address + (#[trigger] ev[j]).1 <= 0xFFFF,
            decreases exports@.len() - i,
        {
            if base_address as u32 + exports[i].1 as u32 > 0xFFFF {
                assert(!exports_fit(ev, base_address as int)) by {
                    assert(ev[i as int].1 == exports@[i as int].1);
                }
                return Err(ObjectLoadError::ObjectOverflow);
            }
            i += 1;
        }
        let mut symbols = SymbolTable::new();
        std::mem::swap(&mut symbols, &mut self.global_symbols);
        let ghost syms0 = symbols@;
        let mut i: usize = 0;
        assert(ev.take(0) =~= Seq::<(Seq<char>, u16)>::empty());
        while i < exports.len()
            invariant
                ev == object@.exports,
                ev.len() == exports@.len(),
                ev == exports@.map_values(|p: (String, u16)| (p.0@, p.1)),
                exports_fit(ev, base_address as int),
                i <= exports@.len(),
                symbols@ == add_exports(syms0, ev.take(i as int), base_address as int),
            decreases exports@.len() - i,
        {
            let (label, offset) = &exports[i];
            assert(ev[i as int] == (label@, *offset));
            let label_chars = chars_of(label.as_str());
            symbols.insert(label_chars, base_address + *offset);
            assert(ev.take(i + 1).drop_last() =~= ev.take(i as int));
            i += 1;
        }
        assert(ev.take(i as int) =~= ev);
        self.global_symbols = symbols;
        let ghost old_objs = self@.objects;
        let mut objects = Vec::new();
        std::mem::swap(&mut objects, &mut self.objects);
        let ghost ov = object@;
        objects.push(object);
        proof {
            assert(objects@.map_values(|o: ObjectFile| o@) =~= old_objs.push(ov));
            lemma_layout_push(old_objs, ov);
            assert(layout_ok(objects@.map_values(|o: ObjectFile| o@)));
        }
        self.objects = objects;
        assert(self@.objects =~= old_objs.push(ov));
        Ok(())
    }

    /// Links the loaded objects into an executable image: `"vmrx"`, `JMP <entry>` (the address
    /// of the symbol `entry_label`), then each object's bytecode with its internal relocations
    /// shifted by its base address and its external relocations set to their symbols' addresses.
    pub fn link(self, entry_label: &str) -> (r: Result<Vec<u8>, LinkError>)
        ensures
            match spec_link(self@, entry_label@) {
                Ok(bytes) => r matches Ok(v) && v@ == bytes,
                Err(e) => r matches Err(x) && x@ == e,
            },
    {
        proof {
            use_type_invariant(&self);
        }
        let entry_chars = chars_of(entry_label);
        assert(entry_chars@.subrange(0, entry_chars@.len() as int) =~= entry_label@);
        let entry_addr = match self.global_symbols.get(entry_chars.as_slice(), 0, entry_chars.len()) {
            Some(a) => a,
            None => return Err(LinkError::EntryPointNotFound(entry_label.to_owned())),
        };
        let mut output: Vec<u8> = Vec::new();
        output.push(0x76);
        output.push(0x6D);
        output.push(0x72);
        output.push(0x78);
        output.push(crate::isa::Operation::JMP.to_u8());
        push_be(&mut output, entry_addr);
        let total_size = self.code_size();
        if total_size > 0xFFFF {
            return Err(LinkError::TotalSizeExceedsLimit(total_size));
        }
        let ghost header = output@;
        assert(header =~= executable_magic() + seq![0xB0u8] + be_bytes(entry_addr));
        let ghost objs = self@.objects;
        let ghost syms = self@.symbols;
        let mut i: usize = 0;
        assert(objs.take(0) =~= Seq::<ObjectModel>::empty());
        assert(header + Seq::<u8>::empty() =~= header);
        while i < self.objects.len()
            invariant
                objs == self@.objects,
                syms == self@.symbols,
                syms.contains_key(entry_label@),
                header == executable_magic() + seq![0xB0u8] + be_bytes(syms[entry_label@]),
                code_len_sum(objs, objs.len() as int) <= 0xFFFF,
                layout_ok(objs),
                syms == self.global_symbols@,
                objs.len() == self.objects@.len(),
                i <= objs.len(),
                patch_objects(objs.take(i as int), syms) matches Ok(code) && output@ == header
                    + code,
            decreases objs.len() - i,
        {
            let obj = &self.objects[i];
            assert(objs[i as int] == obj@);
            assert(objs[i as int].base_address == TRAMPOLINE_BYTES + code_len_sum(objs, i as int));
            assert(obj@.bytecode.len() <= MAX_LEN);
            assert(objs.take(i + 1).drop_last() =~= objs.take(i as int));
            assert(objs.take(i + 1).last() == obj@);
            let mut code = slice_to_vec(obj.bytecode.as_slice());
            match apply_internal(&mut code, obj.internal_relocations.as_slice(), obj.base_address, &obj.name) {
                Ok(()) => {},
                Err(e) => {
                    proof {
                        lemma_objects_err_persists(objs, syms, i + 1);
                    }
                    return Err(e);
                },
            }
            match apply_external(&mut code, obj.external_relocations.as_slice(), &self.global_symbols, &obj.name) {
                Ok(()) => {},
                Err(e) => {
                    proof {
                        lemma_objects_err_persists(objs, syms, i + 1);
                    }
                    return Err(e);
                },
            }
            let ghost before = output@;
            let mut k: usize = 0;
            while k < code.len()
                invariant
                    k <= code@.len(),
                    output@ == before + code@.subrange(0, k as int),
                decreases code@.len() - k,
            {
                output.push(code[k]);
                k += 1;
                assert(output@ =~= before + code@.subrange(0, k as int));
            }
            proof {
                assert(code@.subrange(0, k as int) =~= code@);
                let prefix = patch_objects(objs.take(i as int), syms)->Ok_0;
                assert(output@ =~= header + (prefix + code@));
            }
            i += 1;
        }
        assert(objs.take(i as int) =~= objs);
        Ok(output)
    }
}

/// Loading exports defines each exported name at base address plus the offset of its last
/// definition in the object: a later definition wins.
pub proof fn lemma_export_defines(syms: Map<Seq<char>, u16>, es: Seq<(Seq<char>, u16)>, base: int, j: int)
    requires
        0 <= j < es.len(),
        forall|k: int| j < k < es.len() ==> (#[trigger] es[k]).0 != es[j].0,
    ensures
        add_exports(syms, es, base).contains_key(es[j].0),
        add_exports(syms, es, base)[es[j].0] == (base + es[j].1) as u16,
    decreases es.len(),
{
    if j < es.len() - 1 {
        let init = es.drop_last();
        assert(init[j] == es[j]);
        assert forall|k: int| j < k < init.len() implies (#[trigger] init[k]).0 != init[j].0 by {
            assert(init[k] == es[k]);
        }
        lemma_export_defines(syms, init, base, j);
        assert(es.last() == es[es.len() - 1]);
    }
}

/// Names that an object does not export keep their definitions when it is loaded.
pub proof fn lemma_unexported_kept(syms: Map<Seq<char>, u16>, es: Seq<(Seq<char>, u16)>, base: int, name: Seq<char>)
    requires
        forall|k: int| 0 <= k < es.len() ==> (#[trigger] es[k]).0 != name,
    ensures
        add_exports(syms, es, base).contains_key(name) == syms.contains_key(name),
        syms.contains_key(name) ==> add_exports(syms, es, base)[name] == syms[name],
    decreases es.len(),
{
    if es.len() > 0 {
        let init = es.drop_last();
        assert forall|k: int| 0 <= k < init.len() implies (#[trigger] init[k]).0 != name by {
            assert(init[k] == es[k]);
        }
        lemma_unexported_kept(syms, init, base, name);
        assert(es.last() == es[es.len() - 1]);
    }
}

/// Writing a word leaves the length and every byte outside the word as they were.
proof fn lemma_write_word_frame(c: Seq<u8>, j: int, v: u16)
    requires
        0 <= j,
        j + 1 < c.len(),
    ensures
        write_word(c, j, v).len() == c.len(),
        forall|i: int| 0 <= i < c.len() && i != j && i != j + 1 ==> #[trigger] write_word(c, j, v)[i]
            == c[i],
        be_word(write_word(c, j, v)[j], write_word(c, j, v)[j + 1]) == v,
{
}

/// Applying internal relocations keeps the length. A word that only the relocation at index `q`
/// touches gets the base address added once if `q` is among the relocations applied, and is
/// otherwise unchanged.
proof fn lemma_patch_internal_word(c: Seq<u8>, rels: Seq<u16>, base: u16, name: Seq<char>, x: int, q: int)
    requires
        patch_internal(c, rels, base, name) is Ok,
        0 <= x,
        x + 1 < c.len(),
        forall|i: int| 0 <= i < rels.len() && i != q ==> apart(#[trigger] rels[i] as int, x),
        q >= 0,
        q < rels.len() ==> rels[q] == x,
    ensures
        patch_internal(c, rels, base, name)->Ok_0.len() == c.len(),
        ({
            let c2 = patch_internal(c, rels, base, name)->Ok_0;
            if q < rels.len() {
                be_word(c2[x], c2[x + 1]) == ((be_word(c[x], c[x + 1]) + base) % 0x10000) as u16
            } else {
                c2[x] == c[x] && c2[x + 1] == c[x + 1]
            }
        }),
    decreases rels.len(),
{
    if rels.len() > 0 {
        let init = rels.drop_last();
        assert forall|i: int| 0 <= i < init.len() && i != q implies apart(#[trigger] init[i] as int, x) by {
            assert(init[i] == rels[i]);
        }
        if q == rels.len() - 1 {
            lemma_patch_internal_word(c, init, base, name, x, init.len() as int);
        } else {
            if q < init.len() {
                assert(init[q] == rels[q]);
            }
            lemma_patch_internal_word(c, init, base, name, x, q);
        }
        let c1 = patch_internal(c, init, base, name)->Ok_0;
        let idx = rels.last();
        lemma_write_word_frame(c1, idx as int, ((be_word(c1[idx as int], c1[idx + 1]) + base) % 0x10000) as u16);
    }
}

/// Applying external relocations keeps the length and every word that none of them touches.
/// The word of the relocation at index `q` holds its symbol's address when no later relocation
/// touches it.
proof fn lemma_patch_external_word(
    c: Seq<u8>,
    rels: Seq<(Seq<char>, u16)>,
    syms: Map<Seq<char>, u16>,
    name: Seq<char>,
    x: int,
    q: int,
)
    requires
        patch_external(c, rels, syms, name) is Ok,
        0 <= x,
        x + 1 < c.len(),
        q >= 0,
        q < rels.len() ==> rels[q].1 == x,
        forall|i: int| 0 <= i < rels.len() && i > q ==> apart(#[trigger] rels[i].1 as int, x),
        q >= rels.len() ==> forall|i: int| 0 <= i < rels.len() ==> apart(#[trigger] rels[i].1 as int, x),
    ensures
        patch_external(c, rels, syms, name)->Ok_0.len() == c.len(),
        ({
            let c2 = patch_external(c, rels, syms, name)->Ok_0;
            if q < rels.len() {
                syms.contains_key(rels[q].0) && be_word(c2[x], c2[x + 1]) == syms[rels[q].0]
            } else {
                c2[x] == c[x] && c2[x + 1] == c[x + 1]
            }
        }),
    decreases rels.len(),
{
    if rels.len() > 0 {
        let init = rels.drop_last();
        assert forall|i: int| 0 <= i < init.len() && i > q implies apart(#[trigger] init[i].1 as int, x) by {
            assert(init[i] == rels[i]);
        }
        if q == rels.len() - 1 {
            lemma_external_len(c, init, syms, name);
        } else if q > rels.len() - 1 {
            assert forall|i: int| 0 <= i < init.len() implies apart(#[trigger] init[i].1 as int, x) by {
                assert(init[i] == rels[i]);
            }
            lemma_patch_external_word(c, init, syms, name, x, init.len() as int);
        } else {
            assert(init[q] == rels[q]);
            lemma_patch_external_word(c, init, syms, name, x, q);
        }
        let c1 = patch_external(c, init, syms, name)->Ok_0;
        let rel = rels.last();
        lemma_write_word_frame(c1, rel.1 as int, syms[rel.0]);
    }
}

/// An internal relocation adds the object's base address: after linking, a word that one
/// internal relocation and no other relocation of its object touches holds its assembled value
/// plus the object's base address (modulo 2^16).
pub proof fn lemma_internal_relocation(o: ObjectModel, syms: Map<Seq<char>, u16>, q: int)
    requires
        patch_object(o, syms) is Ok,
        0 <= q < o.internal_relocations.len(),
        forall|i: int|
            0 <= i < o.internal_relocations.len() && i != q ==> apart(
                #[trigger] o.internal_relocations[i] as int,
                o.internal_relocations[q] as int,
            ),
        forall|i: int|
            0 <= i < o.external_relocations.len() ==> apart(
                #[trigger] o.external_relocations[i].1 as int,
                o.internal_relocations[q] as int,
            ),
    ensures
        ({
            let c = patch_object(o, syms)->Ok_0;
            let x = o.internal_relocations[q] as int;
            &&& x + 1 < c.len()
            &&& be_word(c[x], c[x + 1]) == ((be_word(o.bytecode[x], o.bytecode[x + 1])
                + o.base_address) % 0x10000) as u16
        }),
{
    let rels = o.internal_relocations;
    let x = rels[q] as int;
    lemma_internal_in_bounds(o.bytecode, rels, o.base_address, o.name, q);
    lemma_patch_internal_word(o.bytecode, rels, o.base_address, o.name, x, q);
    let c1 = patch_internal(o.bytecode, rels, o.base_address, o.name)->Ok_0;
    lemma_patch_external_word(c1, o.external_relocations, syms, o.name, x, o.external_relocations.len() as int);
}

/// An external relocation takes its symbol's address: after linking, the word of an external
/// relocation that no later external relocation of its object touches holds the global address
/// of its symbol.
pub proof fn lemma_external_relocation(o: ObjectModel, syms: Map<Seq<char>, u16>, q: int)
    requires
        patch_object(o, syms) is Ok,
        0 <= q < o.external_relocations.len(),
        forall|i: int|
            q < i < o.external_relocations.len() ==> apart(
                #[trigger] o.external_relocations[i].1 as int,
                o.external_relocations[q].1 as int,
            ),
    ensures
        ({
            let c = patch_object(o, syms)->Ok_0;
            let x = o.external_relocations[q].1 as int;
            &&& syms.contains_key(o.external_relocations[q].0)
            &&& x + 1 < c.len()
            &&& be_word(c[x], c[x + 1]) == syms[o.external_relocations[q].0]
        }),
{
    let c1 = patch_internal(o.bytecode, o.internal_relocations, o.base_address, o.name)->Ok_0;
    let rels = o.external_relocations;
    let x = rels[q].1 as int;
    lemma_external_in_bounds(c1, rels, syms, o.name, q);
    lemma_patch_external_word(c1, rels, syms, o.name, x, q);
}

/// Every relocation that was applied lay inside the bytecode.
proof fn lemma_internal_in_bounds(c: Seq<u8>, rels: Seq<u16>, base: u16, name: Seq<char>, q: int)
    requires
        patch_internal(c, rels, base, name) is Ok,
        0 <= q < rels.len(),
    ensures
        rels[q] + 1 < c.len(),
    decreases rels.len(),
{
    let init = rels.drop_last();
    lemma_internal_len(c, init, base, name);
    if q < init.len() {
        assert(init[q] == rels[q]);
        lemma_internal_in_bounds(c, init, base, name, q);
    }
}

proof fn lemma_internal_len(c: Seq<u8>, rels: Seq<u16>, base: u16, name: Seq<char>)
    ensures
        patch_internal(c, rels, base, name) is Ok ==> patch_internal(c, rels, base, name)->Ok_0.len()
            == c.len(),
    decreases rels.len(),
{
    if rels.len() > 0 {
        lemma_internal_len(c, rels.drop_last(), base, name);
    }
}

proof fn lemma_external_len(c: Seq<u8>, rels: Seq<(Seq<char>, u16)>, syms: Map<Seq<char>, u16>, name: Seq<char>)
    ensures
        patch_external(c, rels, syms, name) is Ok ==> patch_external(c, rels, syms, name)->Ok_0.len()
            == c.len(),
    decreases rels.len(),
{
    if rels.len() > 0 {
        lemma_external_len(c, rels.drop_last(), syms, name);
    }
}

proof fn lemma_external_in_bounds(
    c: Seq<u8>,
    rels: Seq<(Seq<char>, u16)>,
    syms: Map<Seq<char>, u16>,
    name: Seq<char>,
    q: int,
)
    requires
        patch_external(c, rels, syms, name) is Ok,
        0 <= q < rels.len(),
    ensures
        rels[q].1 + 1 < c.len(),
    decreases rels.len(),
{
    let init = rels.drop_last();
    lemma_external_len(c, init, syms, name);
    if q < init.len() {
        assert(init[q] == rels[q]);
        lemma_external_in_bounds(c, init, syms, name, q);
    }
}

/// Patching an object keeps the length of its bytecode.
proof fn lemma_patch_object_len(o: ObjectModel, syms: Map<Seq<char>, u16>)
    ensures
        patch_object(o, syms) is Ok ==> patch_object(o, syms)->Ok_0.len() == o.bytecode.len(),
{
    lemma_internal_len(o.bytecode, o.internal_relocations, o.base_address, o.name);
    if patch_internal(o.bytecode, o.internal_relocations, o.base_address, o.name) is Ok {
        let c1 = patch_internal(o.bytecode, o.internal_relocations, o.base_address, o.name)->Ok_0;
        lemma_external_len(c1, o.external_relocations, syms, o.name);
    }
}

proof fn lemma_code_len_sum_mono(objs: Seq<ObjectModel>, k: int, n: int)
    requires
        0 <= k <= n,
    ensures
        code_len_sum(objs, k) <= code_len_sum(objs, n),
    decreases n - k,
{
    if k < n {
        lemma_code_len_sum_mono(objs, k, n - 1);
    }
}

/// The patched objects, concatenated: object `k` starts after the objects before it.
proof fn lemma_patch_objects_layout(objs: Seq<ObjectModel>, syms: Map<Seq<char>, u16>, k: int, p: int)
    requires
        patch_objects(objs, syms) is Ok,
    ensures
        patch_objects(objs, syms)->Ok_0.len() == code_len_sum(objs, objs.len() as int),
        0 <= k < objs.len() && 0 <= p < objs[k].bytecode.len() ==> {
            &&& patch_object(objs[k], syms) is Ok
            &&& patch_objects(objs, syms)->Ok_0[code_len_sum(objs, k) + p] == patch_object(
                objs[k],
                syms,
            )->Ok_0[p]
        },
    decreases objs.len(),
{
    if objs.len() > 0 {
        let init = objs.drop_last();
        let last = objs.last();
        assert(init.push(last) =~= objs);
        let prefix = patch_objects(init, syms)->Ok_0;
        let c = patch_object(last, syms)->Ok_0;
        assert(patch_objects(objs, syms)->Ok_0 == prefix + c);
        lemma_code_len_sum_prefix(init, last, init.len() as int);
        lemma_patch_object_len(last, syms);
        if 0 <= k < init.len() && 0 <= p < objs[k].bytecode.len() {
            assert(objs[k] == init[k]);
            lemma_code_len_sum_prefix(init, last, k);
            lemma_patch_objects_layout(init, syms, k, p);
            lemma_code_len_sum_mono(init, k + 1, init.len() as int);
            lemma_code_len_sum_nonneg(init, k);
            assert((prefix + c)[code_len_sum(init, k) + p] == prefix[code_len_sum(init, k) + p]);
        } else {
            lemma_patch_objects_layout(init, syms, 0, 0);
            if k == init.len() && 0 <= p < objs[k].bytecode.len() {
                assert((prefix + c)[prefix.len() + p] == c[p]);
            }
        }
    }
}

/// The linked image starts with `"vmrx"`, then `JMP` and the entry point's address, and holds
/// the patched bytecode of all objects after those 7 bytes.
pub proof fn lemma_link_header(l: LinkerModel, entry: Seq<char>)
    requires
        spec_link(l, entry) is Ok,
    ensures
        ({
            let image = spec_link(l, entry)->Ok_0;
            &&& image.len() == 7 + code_len_sum(l.objects, l.objects.len() as int)
            &&& image.subrange(0, 4) == executable_magic()
            &&& image[4] == 0xB0
            &&& be_word(image[5], image[6]) == l.symbols[entry]
        }),
{
    lemma_patch_objects_layout(l.objects, l.symbols, 0, 0);
    let image = spec_link(l, entry)->Ok_0;
    let code = patch_objects(l.objects, l.symbols)->Ok_0;
    let head = executable_magic() + seq![0xB0u8] + be_bytes(l.symbols[entry]);
    assert(image == head + code);
    assert(image.subrange(0, 4) =~= executable_magic());
    assert(image[4] == head[4]);
    assert(image[5] == head[5] && image[6] == head[6]);
}

/// The linked image places every object's bytecode, with its relocations applied, in load
/// order after the 7 header bytes: object `k` starts at image offset 7 plus the bytecode lengths
/// of the objects before it, which is its base address plus the 4 bytes of `"vmrx"`.
pub proof fn lemma_link_layout(l: LinkerModel, entry: Seq<char>, k: int, p: int)
    requires
        spec_link(l, entry) is Ok,
        0 <= k < l.objects.len(),
        0 <= p < l.objects[k].bytecode.len(),
    ensures
        patch_object(l.objects[k], l.symbols) is Ok,
        spec_link(l, entry)->Ok_0[7 + code_len_sum(l.objects, k) + p] == patch_object(
            l.objects[k],
            l.symbols,
        )->Ok_0[p],
{
    lemma_patch_objects_layout(l.objects, l.symbols, k, p);
    lemma_code_len_sum_nonneg(l.objects, k);
    lemma_code_len_sum_mono(l.objects, k + 1, l.objects.len() as int);
    let image = spec_link(l, entry)->Ok_0;
    let code = patch_objects(l.objects, l.symbols)->Ok_0;
    let head = executable_magic() + seq![0xB0u8] + be_bytes(l.symbols[entry]);
    assert(image == head + code);
    assert(image[7 + code_len_sum(l.objects, k) + p] == code[code_len_sum(l.objects, k) + p]);
}

/// Loading appends the decoded object after the objects loaded before it, at base address 3
/// plus their bytecode lengths, and defines its exports as global symbols at that base plus
/// their offsets, a later definition replacing an earlier one.
pub proof fn lemma_load_layout(l: LinkerModel, name: Seq<char>, data: Seq<u8>)
    requires
        spec_load(l, name, data).1 is Ok,
    ensures
        ({
            let l2 = spec_load(l, name, data).0;
            let base = TRAMPOLINE_BYTES + code_len_sum(l.objects, l.objects.len() as int);
            let o = spec_from_binary(data, name, base as u16)->Ok_0;
            &&& l2.objects.len() == l.objects.len() + 1
            &&& l2.objects.take(l.objects.len() as int) == l.objects
            &&& l2.objects.last() == o
            &&& o.name == name && o.base_address == base
            &&& base <= 0xFFFF
            &&& l2.symbols == add_exports(l.symbols, o.exports, base)
        }),
{
    let l2 = spec_load(l, name, data).0;
    lemma_code_len_sum_nonneg(l.objects, l.objects.len() as int);
    let base = next_base(l);
    assert(0 <= base <= 0xFFFF);
    let o = spec_from_binary(data, name, base as u16)->Ok_0;
    assert(l2.objects == l.objects.push(o));
    assert(l2.objects.take(l.objects.len() as int) =~= l.objects);
}

/// After linking, the references of an assembled object point where they should. Take an
/// object loaded with the bytecode and relocations of an object whose relocation tables are
/// sound, as those of every assembled object are: each internal relocation's word becomes the
/// address of one of that object's local labels plus the base address (modulo 2^16), and each
/// external relocation's word becomes the global address of its symbol.
pub proof fn lemma_references_after_link(m: ObjectModel, o: ObjectModel, syms: Map<Seq<char>, u16>)
    requires
        relocations_sound(m),
        o.bytecode == m.bytecode,
        o.internal_relocations == m.internal_relocations,
        o.external_relocations == m.external_relocations,
        patch_object(o, syms) is Ok,
    ensures
        forall|q: int|
            #![trigger o.internal_relocations[q]]
            0 <= q < o.internal_relocations.len() ==> exists|n: Seq<char>|
                #![trigger m.labels[n]]
                m.labels.contains_key(n) && word_at(
                    patch_object(o, syms)->Ok_0,
                    o.internal_relocations[q] as int,
                ) == ((m.labels[n] + o.base_address) % 0x10000) as u16,
        forall|q: int|
            0 <= q < o.external_relocations.len() ==> syms.contains_key(
                #[trigger] o.external_relocations[q].0,
            ) && word_at(patch_object(o, syms)->Ok_0, o.external_relocations[q].1 as int)
                == syms[o.external_relocations[q].0],
{
    let ir = o.internal_relocations;
    let er = o.external_relocations;
    let c = patch_object(o, syms)->Ok_0;
    assert forall|q: int| #![trigger ir[q]] 0 <= q < ir.len() implies exists|n: Seq<char>|
        #![trigger m.labels[n]]
        m.labels.contains_key(n) && word_at(c, ir[q] as int) == ((m.labels[n] + o.base_address)
            % 0x10000) as u16 by {
        lemma_internal_relocation(o, syms, q);
        let w = word_at(m.bytecode, ir[q] as int);
        assert(m.labels.contains_value(w));
        let n = choose|n: Seq<char>| m.labels.contains_key(n) && m.labels[n] == w;
        assert(m.labels.contains_key(n) && word_at(c, ir[q] as int) == ((m.labels[n]
            + o.base_address) % 0x10000) as u16);
    }
    assert forall|q: int| 0 <= q < er.len() implies syms.contains_key(#[trigger] er[q].0) && word_at(
        c,
        er[q].1 as int,
    ) == syms[er[q].0] by {
        lemma_external_relocation(o, syms, q);
    }
}

} // verus!
