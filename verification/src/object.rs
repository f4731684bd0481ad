//! Object files: their in-memory form and their on-disk encoding.
use vstd::prelude::*;
use vstd::slice::{slice_subrange, slice_to_vec};
use vstd::utf8::{decode_utf8, encode_utf8, valid_utf8};

use crate::indexed_vec::{IndexedVec, MAX_LEN};
use crate::symbols::SymbolTable;

verus! {

#[verifier::external_type_specification]
#[verifier::external_body]
pub struct ExUtf8Error(std::str::Utf8Error);

/// An assembled object: exported labels, relocations to patch at link time, and bytecode.
/// `labels` holds the local labels while a file is assembled; they are not part of the
/// on-disk encoding.
#[derive(Debug)]
pub struct ObjectFile {
    pub name: String,
    pub internal_relocations: IndexedVec<u16>,
    pub external_relocations: IndexedVec<(String, u16)>,
    pub labels: SymbolTable,
    pub exports: IndexedVec<(String, u16)>,
    pub bytecode: IndexedVec<u8>,
    pub base_address: u16,
}

/// Why an object file could not be decoded.
#[derive(Debug, Clone, Copy, PartialEq, Eq, Structural)]
pub enum ObjectParseErr {
    InvalidMagic,
    UnexpectedEof,
    StringParseError,
    ExportsOverflow,
    ExternalRelocationsOverflow,
    InternalRelocationsOverflow,
    BytecodeTooLarge,
}

/// Why a length-prefixed string could not be decoded.
#[derive(Debug, PartialEq, Eq)]
pub enum StringParseError {
    UTF8Error(std::str::Utf8Error),
    BadData,
}

/// The abstract content of an object file.
#[verifier::ext_equal]
pub struct ObjectModel {
    pub name: Seq<char>,
    pub internal_relocations: Seq<u16>,
    pub external_relocations: Seq<(Seq<char>, u16)>,
    pub labels: Map<Seq<char>, u16>,
    pub exports: Seq<(Seq<char>, u16)>,
    pub bytecode: Seq<u8>,
    pub base_address: u16,
}

/// Names and addresses, names taken as character sequences.
pub open spec fn named_view(s: Seq<(String, u16)>) -> Seq<(Seq<char>, u16)> {
    s.map_values(|p: (String, u16)| (p.0@, p.1))
}

impl View for ObjectFile {
    type V = ObjectModel;

    open spec fn view(&self) -> ObjectModel {
        ObjectModel {
            name: self.name@,
            internal_relocations: self.internal_relocations@,
            external_relocations: named_view(self.external_relocations@),
            labels: self.labels@,
            exports: named_view(self.exports@),
            bytecode: self.bytecode@,
            base_address: self.base_address,
        }
    }
}

/// The magic bytes of an object file: `"vmro"`.
pub open spec fn object_magic() -> Seq<u8> {
    seq![0x76u8, 0x6Du8, 0x72u8, 0x6Fu8]
}

/// Big-endian bytes of a word.
pub open spec fn be_bytes(x: u16) -> Seq<u8> {
    seq![(x / 256) as u8, (x % 256) as u8]
}

/// The word whose big-endian bytes are `hi`, `lo`.
pub open spec fn be_word(hi: u8, lo: u8) -> u16 {
    (hi as int * 256 + lo as int) as u16
}

/// Whether the two-byte words at positions `a` and `b` do not overlap.
pub open spec fn apart(a: int, b: int) -> bool {
    a + 1 < b || b + 1 < a
}

/// A name as a length-prefixed UTF-8 string.
pub open spec fn name_record(n: Seq<char>) -> Seq<u8> {
    be_bytes(encode_utf8(n).len() as u16) + encode_utf8(n)
}

/// A table of (name, word) entries, each a name record then the word.
pub open spec fn entries_bytes(es: Seq<(Seq<char>, u16)>) -> Seq<u8>
    decreases es.len(),
{
    if es.len() == 0 {
        Seq::empty()
    } else {
        entries_bytes(es.drop_last()) + name_record(es.last().0) + be_bytes(es.last().1)
    }
}

/// A table of words.
pub open spec fn words_bytes(ws: Seq<u16>) -> Seq<u8>
    decreases ws.len(),
{
    if ws.len() == 0 {
        Seq::empty()
    } else {
        words_bytes(ws.drop_last()) + be_bytes(ws.last())
    }
}

/// The encoding of an object file: magic, the exports table, the external relocations table,
/// the internal relocations table (each preceded by its entry count) and the bytecode.
pub open spec fn spec_to_binary(m: ObjectModel) -> Seq<u8> {
    object_magic() + be_bytes(m.exports.len() as u16) + entries_bytes(m.exports) + be_bytes(
        m.external_relocations.len() as u16,
    ) + entries_bytes(m.external_relocations) + be_bytes(m.internal_relocations.len() as u16)
        + words_bytes(m.internal_relocations) + m.bytecode
}

/// Every name's UTF-8 encoding fits a 16-bit length prefix.
pub open spec fn names_fit(es: Seq<(Seq<char>, u16)>) -> bool {
    forall|i: int| 0 <= i < es.len() ==> #[trigger] encode_utf8(es[i].0).len() <= 0xFFFF
}

/// The word at `c`, if two bytes remain there.
pub open spec fn read_be(data: Seq<u8>, c: int) -> Option<u16> {
    if 0 <= c && c + 2 <= data.len() {
        Some(be_word(data[c], data[c + 1]))
    } else {
        None
    }
}

/// Decodes the length-prefixed string at `c`: `None` when fewer than two bytes remain for its
/// length, an error when the string is cut short or is not UTF-8, otherwise the string and the
/// position after it.
pub open spec fn read_name(data: Seq<u8>, c: int) -> Option<Result<(Seq<char>, int), ObjectParseErr>> {
    if c < 0 || c + 2 > data.len() {
        None
    } else {
        let n = be_word(data[c], data[c + 1]) as int;
        if c + 2 + n > data.len() {
            Some(Err(ObjectParseErr::StringParseError))
        } else if !valid_utf8(data.subrange(c + 2, c + 2 + n)) {
            Some(Err(ObjectParseErr::StringParseError))
        } else {
            Some(Ok((decode_utf8(data.subrange(c + 2, c + 2 + n)), c + 2 + n)))
        }
    }
}

/// Decodes entries `i..n` of a (name, word) table starting at `c`; `overflow` is the error for
/// an entry that no longer fits the table.
pub open spec fn read_entries(data: Seq<u8>, c: int, i: nat, n: nat, overflow: ObjectParseErr) -> Option<
    Result<(Seq<(Seq<char>, u16)>, int), ObjectParseErr>,
>
    decreases n - i,
{
    if i >= n {
        Some(Ok((Seq::empty(), c)))
    } else {
        match read_name(data, c) {
            None => None,
            Some(Err(e)) => Some(Err(e)),
            Some(Ok((s, c1))) => match read_be(data, c1) {
                None => Some(Err(ObjectParseErr::UnexpectedEof)),
                Some(v) => if i >= MAX_LEN {
                    Some(Err(overflow))
                } else {
                    match read_entries(data, c1 + 2, i + 1, n, overflow) {
                        None => None,
                        Some(Err(e)) => Some(Err(e)),
                        Some(Ok((rest, c2))) => Some(Ok((seq![(s, v)] + rest, c2))),
                    }
                },
            },
        }
    }
}

/// Decodes words `i..n` of a word table starting at `c`.
pub open spec fn read_words(data: Seq<u8>, c: int, i: nat, n: nat) -> Result<(Seq<u16>, int), ObjectParseErr>
    decreases n - i,
{
    if i >= n {
        Ok((Seq::empty(), c))
    } else {
        match read_be(data, c) {
            None => Err(ObjectParseErr::UnexpectedEof),
            Some(v) => if i >= MAX_LEN {
                Err(ObjectParseErr::InternalRelocationsOverflow)
            } else {
                match read_words(data, c + 2, i + 1, n) {
                    Err(e) => Err(e),
                    Ok((rest, c2)) => Ok((seq![v] + rest, c2)),
                }
            },
        }
    }
}

/// Decodes an object file; the result has an empty name and base address 0. `None` marks a
/// string length prefix cut short by the end of the data.
pub open spec fn spec_decode_object(data: Seq<u8>) -> Option<Result<ObjectModel, ObjectParseErr>> {
    if data.len() < 4 || data.subrange(0, 4) != object_magic() {
        Some(Err(ObjectParseErr::InvalidMagic))
    } else {
        match read_be(data, 4) {
            None => Some(Err(ObjectParseErr::UnexpectedEof)),
            Some(ne) => match read_entries(data, 6, 0, ne as nat, ObjectParseErr::ExportsOverflow) {
                None => None,
                Some(Err(e)) => Some(Err(e)),
                Some(Ok((exports, c1))) => match read_be(data, c1) {
                    None => Some(Err(ObjectParseErr::UnexpectedEof)),
                    Some(nx) => match read_entries(
                        data,
                        c1 + 2,
                        0,
                        nx as nat,
                        ObjectParseErr::ExternalRelocationsOverflow,
                    ) {
                        None => None,
                        Some(Err(e)) => Some(Err(e)),
                        Some(Ok((external, c2))) => match read_be(data, c2) {
                            None => Some(Err(ObjectParseErr::UnexpectedEof)),
                            Some(ni) => match read_words(data, c2 + 2, 0, ni as nat) {
                                Err(e) => Some(Err(e)),
                                Ok((internal, c3)) => {
                                    let code = data.subrange(c3, data.len() as int);
                                    if code.len() > MAX_LEN {
                                        Some(Err(ObjectParseErr::BytecodeTooLarge))
                                    } else {
                                        Some(
                                            Ok(
                                                ObjectModel {
                                                    name: Seq::empty(),
                                                    internal_relocations: internal,
                                                    external_relocations: external,
                                                    labels: Map::empty(),
                                                    exports,
                                                    bytecode: code,
                                                    base_address: 0,
                                                },
                                            ),
                                        )
                                    }
                                },
                            },
                        },
                    },
                },
            },
        }
    }
}

/// Decodes an object file named `name` loaded at `base`. A string length prefix cut short by
/// the end of the data is `UnexpectedEof`.
pub open spec fn spec_from_binary(data: Seq<u8>, name: Seq<char>, base: u16) -> Result<
    ObjectModel,
    ObjectParseErr,
> {
    match spec_decode_object(data) {
        Some(Ok(m)) => Ok(ObjectModel { name, base_address: base, ..m }),
        Some(Err(e)) => Err(e),
        None => Err(ObjectParseErr::UnexpectedEof),
    }
}

/// Prepends decoded entries to the outcome of decoding the rest of a table.
pub open spec fn prepend_entries(
    done: Seq<(Seq<char>, u16)>,
    rest: Option<Result<(Seq<(Seq<char>, u16)>, int), ObjectParseErr>>,
) -> Option<Result<(Seq<(Seq<char>, u16)>, int), ObjectParseErr>> {
    match rest {
        None => None,
        Some(Err(e)) => Some(Err(e)),
        Some(Ok((es, c))) => Some(Ok((done + es, c))),
    }
}

/// Prepends decoded words to the outcome of decoding the rest of a table.
pub open spec fn prepend_words(done: Seq<u16>, rest: Result<(Seq<u16>, int), ObjectParseErr>) -> Result<
    (Seq<u16>, int),
    ObjectParseErr,
> {
    match rest {
        Err(e) => Err(e),
        Ok((ws, c)) => Ok((done + ws, c)),
    }
}

/// Decodes `raw` as UTF-8 (`String::from_utf8`): `Ok` exactly when `raw` is valid UTF-8, with
/// the decoded characters.
#[verifier::external_body]
fn utf8_string(raw: &[u8]) -> (r: Result<String, std::str::Utf8Error>)
    ensures
        r is Ok <==> valid_utf8(raw@),
        r matches Ok(s) ==> s@ == decode_utf8(raw@),
{
    String::from_utf8(raw.to_vec()).map_err(|e| e.utf8_error())
}

impl ObjectFile {
    /// An empty object named `name` at base address 0.
    pub fn new(name: String) -> (r: ObjectFile)
        ensures
            r@ == (ObjectModel {
                name: name@,
                internal_relocations: Seq::empty(),
                external_relocations: Seq::empty(),
                labels: Map::empty(),
                exports: Seq::empty(),
                bytecode: Seq::empty(),
                base_address: 0,
            }),
    {
        let r = ObjectFile {
            name,
            internal_relocations: IndexedVec::new(),
            external_relocations: IndexedVec::new(),
            exports: IndexedVec::new(),
            labels: SymbolTable::new(),
            bytecode: IndexedVec::new(),
            base_address: 0,
        };
        assert(named_view(r.exports@) =~= Seq::empty());
        assert(named_view(r.external_relocations@) =~= Seq::empty());
        r
    }

    /// Appends `s` as a 16-bit big-endian length prefix and its UTF-8 bytes.
    pub fn write_string(buffer: &mut Vec<u8>, s: &str)
        requires
            encode_utf8(s@).len() <= 0xFFFF,
        ensures
            final(buffer)@ == old(buffer)@ + name_record(s@),
    {
        let bytes = s.as_bytes();
        push_be(buffer, bytes.len() as u16);
        let ghost mid = buffer@;
        let mut i: usize = 0;
        while i < bytes.len()
            invariant
                i <= bytes@.len(),
                bytes@ == encode_utf8(s@),
                buffer@ == mid + bytes@.subrange(0, i as int),
            decreases bytes@.len() - i,
        {
            buffer.push(bytes[i]);
            i += 1;
            assert(buffer@ =~= mid + bytes@.subrange(0, i as int));
        }
        assert(bytes@.subrange(0, i as int) =~= bytes@);
    }

    /// Decodes the string at the start of `data`: a 16-bit big-endian length, then that many
    /// bytes of UTF-8. Returns the string and the number of bytes it took, length included;
    /// `BadData` when fewer bytes follow than the length says, `UTF8Error` when they are not
    /// UTF-8.
    pub fn read_string(data: &[u8]) -> (r: Result<(String, usize), StringParseError>)
        requires
            data@.len() >= 2,
        ensures
            match read_name(data@, 0) {
                Some(Ok((n, c1))) => r matches Ok((s, k)) && s@ == n && k == c1,
                _ => r is Err,
            },
            r matches Err(e) ==> (e is BadData <==> 2 + be_word(data@[0], data@[1]) > data@.len()),
    {
        read_string_at(data, 0)
    }
}

fn push_be(out: &mut Vec<u8>, x: u16)
    ensures
        final(out)@ == old(out)@ + be_bytes(x),
{
    out.push((x / 256) as u8);
    out.push((x % 256) as u8);
    assert(final(out)@ =~= old(out)@ + be_bytes(x));
}

fn write_entries(out: &mut Vec<u8>, entries: &IndexedVec<(String, u16)>)
    requires
        names_fit(named_view(entries@)),
    ensures
        final(out)@ == old(out)@ + entries_bytes(named_view(entries@)),
{
    let es = entries.as_slice();
    let ghost start = out@;
    let ghost all = named_view(entries@);
    let mut i: usize = 0;
    assert(all.take(0) =~= Seq::<(Seq<char>, u16)>::empty());
    while i < es.len()
        invariant
            es@ == entries@,
            all == named_view(entries@),
            names_fit(all),
            i <= es@.len(),
            out@ == start + entries_bytes(all.take(i as int)),
        decreases es@.len() - i,
    {
        let (name, offset) = &es[i];
        assert(all[i as int] == (name@, *offset));
        assert(encode_utf8(all[i as int].0).len() <= 0xFFFF);
        ObjectFile::write_string(out, name.as_str());
        push_be(out, *offset);
        assert(all.take(i + 1).drop_last() =~= all.take(i as int));
        i += 1;
        assert(out@ =~= start + entries_bytes(all.take(i as int)));
    }
    assert(all.take(i as int) =~= all);
}

fn write_words(out: &mut Vec<u8>, words: &IndexedVec<u16>)
    ensures
        final(out)@ == old(out)@ + words_bytes(words@),
{
    let ws = words.as_slice();
    let ghost start = out@;
    let mut i: usize = 0;
    assert(ws@.take(0) =~= Seq::<u16>::empty());
    while i < ws.len()
        invariant
            ws@ == words@,
            i <= ws@.len(),
            out@ == start + words_bytes(ws@.take(i as int)),
        decreases ws@.len() - i,
    {
        push_be(out, ws[i]);
        assert(ws@.take(i + 1).drop_last() =~= ws@.take(i as int));
        i += 1;
        assert(out@ =~= start + words_bytes(ws@.take(i as int)));
    }
    assert(ws@.take(i as int) =~= ws@);
}

impl ObjectFile {
    /// Encodes the object: magic `"vmro"`, the exports and external relocations as
    /// (length-prefixed name, word) tables, the internal relocations as a word table, each table
    /// preceded by its big-endian entry count, then the bytecode. Local labels, the name and the
    /// base address are not encoded.
    pub fn to_binary(&self) -> (r: Vec<u8>)
        requires
            names_fit(self@.exports),
            names_fit(self@.external_relocations),
        ensures
            r@ == spec_to_binary(self@),
    {
        let mut out: Vec<u8> = Vec::new();
        out.push(0x76);
        out.push(0x6D);
        out.push(0x72);
        out.push(0x6F);
        assert(out@ =~= object_magic());
        push_be(&mut out, self.exports.len());
        write_entries(&mut out, &self.exports);
        push_be(&mut out, self.external_relocations.len());
        write_entries(&mut out, &self.external_relocations);
        push_be(&mut out, self.internal_relocations.len());
        write_words(&mut out, &self.internal_relocations);
        let code = self.bytecode.as_slice();
        let ghost before = out@;
        let mut i: usize = 0;
        while i < code.len()
            invariant
                i <= code@.len(),
                out@ == before + code@.subrange(0, i as int),
            decreases code@.len() - i,
        {
            out.push(code[i]);
            i += 1;
            assert(out@ =~= before + code@.subrange(0, i as int));
        }
        assert(code@.subrange(0, i as int) =~= code@);
        out
    }
}

fn read_u16(data: &[u8], cursor: usize) -> (r: Result<u16, ObjectParseErr>)
    ensures
        match read_be(data@, cursor as int) {
            Some(v) => r == Ok::<u16, ObjectParseErr>(v),
            None => r == Err::<u16, ObjectParseErr>(ObjectParseErr::UnexpectedEof),
        },
{
    if cursor <= data.len() && 2 <= data.len() - cursor {
        Ok(data[cursor] as u16 * 256 + data[cursor + 1] as u16)
    } else {
        Err(ObjectParseErr::UnexpectedEof)
    }
}

/// Decodes the length-prefixed string at `cursor`; returns it with the number of bytes read.
fn read_string_at(data: &[u8], cursor: usize) -> (r: Result<(String, usize), StringParseError>)
    requires
        read_name(data@, cursor as int) is Some,
    ensures
        match read_name(data@, cursor as int) {
            Some(Ok((n, c1))) => r matches Ok((s, k)) && s@ == n && cursor + k == c1,
            _ => r is Err,
        },
        r matches Err(e) ==> (e is BadData <==> cursor + 2 + be_word(
            data@[cursor as int],
            data@[cursor + 1],
        ) > data@.len()),
{
    let len = data[cursor] as usize * 256 + data[cursor + 1] as usize;
    if len > data.len() - cursor - 2 {
        return Err(StringParseError::BadData);
    }
    let raw = slice_subrange(data, cursor + 2, cursor + 2 + len);
    match utf8_string(raw) {
        Ok(s) => Ok((s, len + 2)),
        Err(e) => Err(StringParseError::UTF8Error(e)),
    }
}

/// Decodes a (name, word) table of `count` entries at `*cursor`, advancing the cursor.
fn read_table(data: &[u8], cursor: &mut usize, count: u16, overflow: ObjectParseErr) -> (r: Option<
    Result<IndexedVec<(String, u16)>, ObjectParseErr>,
>)
    requires
        *old(cursor) <= data@.len(),
    ensures
        match read_entries(data@, *old(cursor) as int, 0, count as nat, overflow) {
            None => r is None,
            Some(Err(e)) => r == Some(Err::<IndexedVec<(String, u16)>, ObjectParseErr>(e)),
            Some(Ok((es, c))) => r matches Some(Ok(v)) && named_view(v@) == es && *final(cursor)
                == c,
        },
        *final(cursor) <= data@.len(),
{
    let ghost c0 = *cursor as int;
    let mut table: IndexedVec<(String, u16)> = IndexedVec::with_capacity(count);
    let mut i: u16 = 0;
    assert(named_view(table@) =~= Seq::empty());
    while i < count
        invariant
            c0 == *old(cursor) as int,
            *cursor <= data@.len(),
            named_view(table@).len() == i,
            read_entries(data@, c0, 0, count as nat, overflow) == prepend_entries(
                named_view(table@),
                read_entries(data@, *cursor as int, i as nat, count as nat, overflow),
            ),
        decreases count - i,
    {
        if *cursor > data.len() || data.len() - *cursor < 2 {
            assert(read_name(data@, *cursor as int) is None);
            return None;
        }
        let (label, bytes_read) = match read_string_at(data, *cursor) {
            Ok(x) => x,
            Err(_) => return Some(Err(ObjectParseErr::StringParseError)),
        };
        *cursor = *cursor + bytes_read;
        let offset = match read_u16(data, *cursor) {
            Ok(v) => v,
            Err(e) => return Some(Err(e)),
        };
        *cursor = *cursor + 2;
        let ghost before = named_view(table@);
        let ghost entry = (label@, offset);
        match table.push((label, offset)) {
            Ok(()) => {},
            Err(_) => return Some(Err(overflow)),
        }
        assert(named_view(table@) =~= before.push(entry));
        assert(before + (seq![entry] + Seq::empty()) =~= before.push(entry) + Seq::empty());
        proof {
            let rest = read_entries(data@, *cursor as int, (i + 1) as nat, count as nat, overflow);
            match rest {
                Some(Ok((es, c))) => {
                    assert(before + (seq![entry] + es) =~= before.push(entry) + es);
                },
                _ => {},
            }
        }
        i = i + 1;
    }
    assert(named_view(table@) + Seq::empty() =~= named_view(table@));
    Some(Ok(table))
}

/// Decodes a word table of `count` entries at `*cursor`, advancing the cursor.
fn read_word_table(data: &[u8], cursor: &mut usize, count: u16) -> (r: Result<
    IndexedVec<u16>,
    ObjectParseErr,
>)
    requires
        *old(cursor) <= data@.len(),
    ensures
        match read_words(data@, *old(cursor) as int, 0, count as nat) {
            Err(e) => r == Err::<IndexedVec<u16>, ObjectParseErr>(e),
            Ok((ws, c)) => r matches Ok(v) && v@ == ws && *final(cursor) == c,
        },
        *final(cursor) <= data@.len(),
{
    let ghost c0 = *cursor as int;
    let mut table: IndexedVec<u16> = IndexedVec::with_capacity(count);
    let mut i: u16 = 0;
    while i < count
        invariant
            c0 == *old(cursor) as int,
            *cursor <= data@.len(),
            table@.len() == i,
            read_words(data@, c0, 0, count as nat) == prepend_words(
                table@,
                read_words(data@, *cursor as int, i as nat, count as nat),
            ),
        decreases count - i,
    {
        let offset = match read_u16(data, *cursor) {
            Ok(v) => v,
            Err(e) => return Err(e),
        };
        let n = data.len();
        assert(*cursor + 2 <= n);
        *cursor = *cursor + 2;
        let ghost before = table@;
        if table.push(offset).is_err() {
            return Err(ObjectParseErr::InternalRelocationsOverflow);
        }
        proof {
            let rest = read_words(data@, *cursor as int, (i + 1) as nat, count as nat);
            match rest {
                Ok((ws, c)) => {
                    assert(before + (seq![offset] + ws) =~= before.push(offset) + ws);
                },
                _ => {},
            }
        }
        i = i + 1;
    }
    assert(table@ + Seq::empty() =~= table@);
    Ok(table)
}

impl ObjectFile {
    /// Decodes an object file named `name` loaded at `base_address`: the magic `"vmro"`, the
    /// exports, external relocations and internal relocations tables, then the bytecode, with
    /// the error of the first part that is missing, cut short or too large.
    pub fn from_binary(data: &[u8], name: &str, base_address: u16) -> (r: Result<
        ObjectFile,
        ObjectParseErr,
    >)
        ensures
            match spec_from_binary(data@, name@, base_address) {
                Err(e) => r == Err::<ObjectFile, ObjectParseErr>(e),
                Ok(m) => r matches Ok(o) && o@ == m,
            },
    {
        if data.len() < 4 || data[0] != 0x76 || data[1] != 0x6D || data[2] != 0x72 || data[3]
            != 0x6F {
            proof {
                if data@.len() >= 4 {
                    assert(data@.subrange(0, 4) != object_magic()) by {
                        assert(data@.subrange(0, 4)[0] == data@[0]);
                        assert(data@.subrange(0, 4)[1] == data@[1]);
                        assert(data@.subrange(0, 4)[2] == data@[2]);
                        assert(data@.subrange(0, 4)[3] == data@[3]);
                    }
                }
            }
            return Err(ObjectParseErr::InvalidMagic);
        }
        assert(data@.subrange(0, 4) =~= object_magic());
        let mut cursor: usize = 4;
        let export_count = match read_u16(data, cursor) {
            Ok(v) => v,
            Err(e) => return Err(e),
        };
        cursor = cursor + 2;
        let exports = match read_table(data, &mut cursor, export_count, ObjectParseErr::ExportsOverflow) {
            None => return Err(ObjectParseErr::UnexpectedEof),
            Some(Err(e)) => return Err(e),
            Some(Ok(t)) => t,
        };
        let external_count = match read_u16(data, cursor) {
            Ok(v) => v,
            Err(e) => return Err(e),
        };
        cursor = cursor + 2;
        let external_relocations = match read_table(
            data,
            &mut cursor,
            external_count,
            ObjectParseErr::ExternalRelocationsOverflow,
        ) {
            None => return Err(ObjectParseErr::UnexpectedEof),
            Some(Err(e)) => return Err(e),
            Some(Ok(t)) => t,
        };
        let internal_count = match read_u16(data, cursor) {
            Ok(v) => v,
            Err(e) => return Err(e),
        };
        cursor = cursor + 2;
        let internal_relocations = match read_word_table(data, &mut cursor, internal_count) {
            Ok(t) => t,
            Err(e) => return Err(e),
        };
        let bytecode_vec = slice_to_vec(slice_subrange(data, cursor, data.len()));
        let bytecode = match IndexedVec::from_vec(bytecode_vec) {
            Ok(b) => b,
            Err(()) => return Err(ObjectParseErr::BytecodeTooLarge),
        };
        let r = ObjectFile {
            name: name.to_owned(),
            exports,
            labels: SymbolTable::new(),
            bytecode,
            internal_relocations,
            external_relocations,
            base_address,
        };
        Ok(r)
    }
}

proof fn lemma_entries_front(es: Seq<(Seq<char>, u16)>)
    requires
        es.len() > 0,
    ensures
        entries_bytes(es) == name_record(es[0].0) + be_bytes(es[0].1) + entries_bytes(
            es.drop_first(),
        ),
    decreases es.len(),
{
    if es.len() == 1 {
        assert(es.drop_last() =~= Seq::<(Seq<char>, u16)>::empty());
        assert(es.drop_first() =~= Seq::<(Seq<char>, u16)>::empty());
        assert(entries_bytes(es) =~= name_record(es[0].0) + be_bytes(es[0].1) + entries_bytes(
            es.drop_first(),
        ));
    } else {
        lemma_entries_front(es.drop_last());
        assert(es.drop_last().drop_first() =~= es.drop_first().drop_last());
        assert(es.drop_first().last() == es.last());
        assert(entries_bytes(es) =~= name_record(es[0].0) + be_bytes(es[0].1) + entries_bytes(
            es.drop_first(),
        ));
    }
}

proof fn lemma_words_front(ws: Seq<u16>)
    requires
        ws.len() > 0,
    ensures
        words_bytes(ws) == be_bytes(ws[0]) + words_bytes(ws.drop_first()),
    decreases ws.len(),
{
    if ws.len() == 1 {
        assert(ws.drop_last() =~= Seq::<u16>::empty());
        assert(ws.drop_first() =~= Seq::<u16>::empty());
        assert(words_bytes(ws) =~= be_bytes(ws[0]) + words_bytes(ws.drop_first()));
    } else {
        lemma_words_front(ws.drop_last());
        assert(ws.drop_last().drop_first() =~= ws.drop_first().drop_last());
        assert(words_bytes(ws) =~= be_bytes(ws[0]) + words_bytes(ws.drop_first()));
    }
}

/// Reading the entries `rest`, encoded at `c`, gives them back along with the position after
/// them.
proof fn lemma_read_encoded_entries(
    data: Seq<u8>,
    c: int,
    rest: Seq<(Seq<char>, u16)>,
    i: nat,
    n: nat,
    ov: ObjectParseErr,
)
    requires
        0 <= c,
        c + entries_bytes(rest).len() <= data.len(),
        data.subrange(c, c + entries_bytes(rest).len()) == entries_bytes(rest),
        rest.len() == n - i,
        i <= n <= MAX_LEN,
        names_fit(rest),
    ensures
        read_entries(data, c, i, n, ov) == Some(
            Ok::<(Seq<(Seq<char>, u16)>, int), ObjectParseErr>((rest, c + entries_bytes(rest).len())),
        ),
    decreases rest.len(),
{
    if rest.len() == 0 {
        assert(rest =~= Seq::<(Seq<char>, u16)>::empty());
    } else {
        lemma_entries_front(rest);
        let name = rest[0].0;
        let v = rest[0].1;
        let enc = encode_utf8(name);
        let tail = rest.drop_first();
        let whole = entries_bytes(rest);
        assert(encode_utf8(rest[0].0).len() <= 0xFFFF);
        let len = enc.len() as int;
        assert(whole == be_bytes(len as u16) + enc + be_bytes(v) + entries_bytes(tail));
        assert(data[c] == whole[0]);
        assert(data[c + 1] == whole[1]);
        assert(be_word(data[c], data[c + 1]) as int == len);
        assert(data.subrange(c + 2, c + 2 + len) =~= enc) by {
            assert forall|j: int| 0 <= j < len implies data.subrange(c + 2, c + 2 + len)[j] == enc[j] by {
                assert(data[c + 2 + j] == whole[2 + j]);
            }
        }
        vstd::utf8::encode_utf8_valid_utf8(name);
        vstd::utf8::encode_utf8_decode_utf8(name);
        let c1 = c + 2 + len;
        assert(data[c1] == whole[2 + len]);
        assert(data[c1 + 1] == whole[3 + len]);
        assert(be_word(data[c1], data[c1 + 1]) == v);
        assert(names_fit(tail)) by {
            assert forall|j: int| 0 <= j < tail.len() implies #[trigger] encode_utf8(tail[j].0).len()
                <= 0xFFFF by {
                assert(tail[j] == rest[j + 1]);
            }
        }
        let c2 = c1 + 2;
        let tb = entries_bytes(tail);
        assert(data.subrange(c2, c2 + tb.len()) =~= tb) by {
            assert forall|j: int| 0 <= j < tb.len() implies data.subrange(c2, c2 + tb.len())[j]
                == tb[j] by {
                assert(data[c2 + j] == whole[4 + len + j]);
            }
        }
        lemma_read_encoded_entries(data, c2, tail, i + 1, n, ov);
        assert(seq![(name, v)] + tail =~= rest);
    }
}

proof fn lemma_read_encoded_words(data: Seq<u8>, c: int, rest: Seq<u16>, i: nat, n: nat)
    requires
        0 <= c,
        c + words_bytes(rest).len() <= data.len(),
        data.subrange(c, c + words_bytes(rest).len()) == words_bytes(rest),
        rest.len() == n - i,
        i <= n <= MAX_LEN,
    ensures
        read_words(data, c, i, n) == Ok::<(Seq<u16>, int), ObjectParseErr>(
            (rest, c + words_bytes(rest).len()),
        ),
    decreases rest.len(),
{
    if rest.len() == 0 {
        assert(rest =~= Seq::<u16>::empty());
    } else {
        lemma_words_front(rest);
        let v = rest[0];
        let tail = rest.drop_first();
        let whole = words_bytes(rest);
        assert(data[c] == whole[0]);
        assert(data[c + 1] == whole[1]);
        assert(be_word(data[c], data[c + 1]) == v);
        let tb = words_bytes(tail);
        assert(data.subrange(c + 2, c + 2 + tb.len()) =~= tb) by {
            assert forall|j: int| 0 <= j < tb.len() implies data.subrange(c + 2, c + 2 + tb.len())[j]
                == tb[j] by {
                assert(data[c + 2 + j] == whole[2 + j]);
            }
        }
        lemma_read_encoded_words(data, c + 2, tail, i + 1, n);
        assert(seq![v] + tail =~= rest);
    }
}

proof fn lemma_middle(a: Seq<u8>, b: Seq<u8>, c: Seq<u8>)
    ensures
        (a + b + c).subrange(a.len() as int, (a.len() + b.len()) as int) == b,
        (a + b + c).len() == a.len() + b.len() + c.len(),
{
    assert((a + b + c).subrange(a.len() as int, (a.len() + b.len()) as int) =~= b);
}

proof fn lemma_be_at(a: Seq<u8>, x: u16, c: Seq<u8>)
    ensures
        be_word((a + be_bytes(x) + c)[a.len() as int], (a + be_bytes(x) + c)[a.len() + 1int]) == x,
{
    assert((a + be_bytes(x) + c)[a.len() as int] == be_bytes(x)[0]);
    assert((a + be_bytes(x) + c)[a.len() + 1int] == be_bytes(x)[1]);
}

/// Where each part of an object's encoding lies.
proof fn lemma_binary_layout(m: ObjectModel)
    ensures
        ({
            let data = spec_to_binary(m);
            let c1: int = 6int + entries_bytes(m.exports).len();
            let c2: int = c1 + 2 + entries_bytes(m.external_relocations).len();
            let c3: int = c2 + 2 + words_bytes(m.internal_relocations).len();
            &&& data.len() == c3 + m.bytecode.len()
            &&& data.subrange(0, 4) == object_magic()
            &&& be_word(data[4], data[5]) == m.exports.len() as u16
            &&& data.subrange(6, c1) == entries_bytes(m.exports)
            &&& be_word(data[c1], data[c1 + 1]) == m.external_relocations.len() as u16
            &&& data.subrange(c1 + 2, c2) == entries_bytes(m.external_relocations)
            &&& be_word(data[c2], data[c2 + 1]) == m.internal_relocations.len() as u16
            &&& data.subrange(c2 + 2, c3) == words_bytes(m.internal_relocations)
            &&& data.subrange(c3, data.len() as int) == m.bytecode
        }),
{
    let data = spec_to_binary(m);
    let eb = entries_bytes(m.exports);
    let xb = entries_bytes(m.external_relocations);
    let wb = words_bytes(m.internal_relocations);
    let bne = be_bytes(m.exports.len() as u16);
    let bnx = be_bytes(m.external_relocations.len() as u16);
    let bni = be_bytes(m.internal_relocations.len() as u16);
    let p0 = object_magic();
    let p1 = p0 + bne;
    let p2 = p1 + eb;
    let p3 = p2 + bnx;
    let p4 = p3 + xb;
    let p5 = p4 + bni;
    let p6 = p5 + wb;
    let code = m.bytecode;
    assert(data == p6 + code);
    assert(data.subrange(0, 4) =~= p0) by {
        assert forall|j: int| 0 <= j < 4 implies data.subrange(0, 4)[j] == p0[j] by {
            assert(data[j] == p0[j]);
        }
    }
    assert(data =~= p0 + bne + (eb + bnx + xb + bni + wb + code));
    lemma_be_at(p0, m.exports.len() as u16, eb + bnx + xb + bni + wb + code);
    assert(data =~= p1 + eb + (bnx + xb + bni + wb + code));
    lemma_middle(p1, eb, bnx + xb + bni + wb + code);
    assert(data =~= p2 + bnx + (xb + bni + wb + code));
    lemma_be_at(p2, m.external_relocations.len() as u16, xb + bni + wb + code);
    assert(data =~= p3 + xb + (bni + wb + code));
    lemma_middle(p3, xb, bni + wb + code);
    assert(data =~= p4 + bni + (wb + code));
    lemma_be_at(p4, m.internal_relocations.len() as u16, wb + code);
    assert(data =~= p5 + wb + code);
    lemma_middle(p5, wb, code);
    assert(data.subrange(p6.len() as int, data.len() as int) =~= code);
}

/// Decoding the encoding of an object gives back its exports, relocations and bytecode, with
/// the name and base address given to the decoder and no local labels.
pub proof fn lemma_object_roundtrip(m: ObjectModel, name: Seq<char>, base: u16)
    requires
        m.exports.len() <= MAX_LEN,
        m.external_relocations.len() <= MAX_LEN,
        m.internal_relocations.len() <= MAX_LEN,
        m.bytecode.len() <= MAX_LEN,
        names_fit(m.exports),
        names_fit(m.external_relocations),
    ensures
        spec_from_binary(spec_to_binary(m), name, base) == Ok::<ObjectModel, ObjectParseErr>(
            ObjectModel { name, base_address: base, labels: Map::empty(), ..m },
        ),
{
    let data = spec_to_binary(m);
    let c1: int = 6int + entries_bytes(m.exports).len();
    let c2: int = c1 + 2 + entries_bytes(m.external_relocations).len();
    lemma_binary_layout(m);
    lemma_read_encoded_entries(data, 6, m.exports, 0, m.exports.len(), ObjectParseErr::ExportsOverflow);
    lemma_read_encoded_entries(
        data,
        c1 + 2,
        m.external_relocations,
        0,
        m.external_relocations.len(),
        ObjectParseErr::ExternalRelocationsOverflow,
    );
    lemma_read_encoded_words(data, c2 + 2, m.internal_relocations, 0, m.internal_relocations.len());
}

proof fn lemma_be_bytes_of_word(hi: u8, lo: u8)
    ensures
        be_bytes(be_word(hi, lo)) == seq![hi, lo],
{
    assert(be_bytes(be_word(hi, lo)) =~= seq![hi, lo]);
}

/// Decoded entries re-encode to exactly the bytes they were decoded from.
proof fn lemma_decoded_entries(data: Seq<u8>, c: int, i: nat, n: nat, ov: ObjectParseErr)
    requires
        0 <= c <= data.len(),
        i <= n,
        read_entries(data, c, i, n, ov) is Some,
        read_entries(data, c, i, n, ov).unwrap() is Ok,
    ensures
        ({
            let (es, c2) = read_entries(data, c, i, n, ov).unwrap().unwrap();
            &&& 0 <= c <= c2 <= data.len()
            &&& data.subrange(c, c2) == entries_bytes(es)
            &&& es.len() == n - i
            &&& names_fit(es)
        }),
    decreases n - i,
{
    if i >= n {
        assert(data.subrange(c, c) =~= Seq::<u8>::empty());
    } else {
        let (s, c1) = read_name(data, c).unwrap().unwrap();
        let len = be_word(data[c], data[c + 1]) as int;
        let raw = data.subrange(c + 2, c + 2 + len);
        let v = read_be(data, c1).unwrap();
        lemma_decoded_entries(data, c1 + 2, i + 1, n, ov);
        let (rest, c2) = read_entries(data, c1 + 2, i + 1, n, ov).unwrap().unwrap();
        let es = seq![(s, v)] + rest;
        vstd::utf8::decode_utf8_encode_utf8(raw);
        assert(encode_utf8(s) == raw);
        lemma_be_bytes_of_word(data[c], data[c + 1]);
        lemma_be_bytes_of_word(data[c1], data[c1 + 1]);
        assert(es.len() > 0);
        lemma_entries_front(es);
        assert(es[0] == (s, v));
        assert(es.drop_first() =~= rest);
        assert(data.subrange(c, c2) =~= be_bytes(len as u16) + raw + be_bytes(v) + entries_bytes(
            rest,
        ));
        assert forall|j: int| 0 <= j < es.len() implies #[trigger] encode_utf8(es[j].0).len()
            <= 0xFFFF by {
            if j > 0 {
                assert(es[j] == rest[j - 1]);
            }
        }
    }
}

/// Decoded words re-encode to exactly the bytes they were decoded from.
proof fn lemma_decoded_words(data: Seq<u8>, c: int, i: nat, n: nat)
    requires
        0 <= c <= data.len(),
        i <= n,
        read_words(data, c, i, n) is Ok,
    ensures
        ({
            let (ws, c2) = read_words(data, c, i, n).unwrap();
            &&& 0 <= c <= c2 <= data.len()
            &&& data.subrange(c, c2) == words_bytes(ws)
            &&& ws.len() == n - i
        }),
    decreases n - i,
{
    if i >= n {
        assert(data.subrange(c, c) =~= Seq::<u8>::empty());
    } else {
        let v = read_be(data, c).unwrap();
        lemma_decoded_words(data, c + 2, i + 1, n);
        let (rest, c2) = read_words(data, c + 2, i + 1, n).unwrap();
        let ws = seq![v] + rest;
        lemma_be_bytes_of_word(data[c], data[c + 1]);
        lemma_words_front(ws);
        assert(ws.drop_first() =~= rest);
        assert(data.subrange(c, c2) =~= be_bytes(v) + words_bytes(rest));
    }
}

/// An object decoded from some bytes encodes back to exactly those bytes.
pub proof fn lemma_decoded_object_reencodes(data: Seq<u8>, name: Seq<char>, base: u16)
    requires
        spec_from_binary(data, name, base) is Ok,
    ensures
        ({
            let m = spec_from_binary(data, name, base)->Ok_0;
            &&& spec_to_binary(m) == data
            &&& names_fit(m.exports)
            &&& names_fit(m.external_relocations)
        }),
{
    let m = spec_from_binary(data, name, base)->Ok_0;
    let ne = read_be(data, 4).unwrap();
    lemma_decoded_entries(data, 6, 0, ne as nat, ObjectParseErr::ExportsOverflow);
    let (exports, c1) = read_entries(data, 6, 0, ne as nat, ObjectParseErr::ExportsOverflow).unwrap().unwrap();
    let nx = read_be(data, c1).unwrap();
    lemma_decoded_entries(data, c1 + 2, 0, nx as nat, ObjectParseErr::ExternalRelocationsOverflow);
    let (external, c2) = read_entries(
        data,
        c1 + 2,
        0,
        nx as nat,
        ObjectParseErr::ExternalRelocationsOverflow,
    ).unwrap().unwrap();
    let ni = read_be(data, c2).unwrap();
    lemma_decoded_words(data, c2 + 2, 0, ni as nat);
    let (internal, c3) = read_words(data, c2 + 2, 0, ni as nat).unwrap();
    lemma_be_bytes_of_word(data[4], data[5]);
    lemma_be_bytes_of_word(data[c1], data[c1 + 1]);
    lemma_be_bytes_of_word(data[c2], data[c2 + 1]);
    assert(m.exports == exports);
    assert(m.external_relocations == external);
    assert(m.internal_relocations == internal);
    assert(exports.len() == ne);
    assert(spec_to_binary(m) =~= data.subrange(0, 4) + data.subrange(4, 6) + data.subrange(6, c1)
        + data.subrange(c1, c1 + 2) + data.subrange(c1 + 2, c2) + data.subrange(c2, c2 + 2)
        + data.subrange(c2 + 2, c3) + data.subrange(c3, data.len() as int));
    assert(data.subrange(0, 4) + data.subrange(4, 6) + data.subrange(6, c1) + data.subrange(
        c1,
        c1 + 2,
    ) + data.subrange(c1 + 2, c2) + data.subrange(c2, c2 + 2) + data.subrange(c2 + 2, c3)
        + data.subrange(c3, data.len() as int) =~= data);
}

/// A length-prefixed name reads back as written (`ObjectFile::write_string`, then
/// `ObjectFile::read_string`): wherever it stands in a byte string, whatever follows it, the
/// record of name `n` decodes to `n` and the position just after it, its UTF-8 length plus two.
pub proof fn lemma_name_record_roundtrip(pre: Seq<u8>, n: Seq<char>, post: Seq<u8>)
    requires
        encode_utf8(n).len() <= 0xFFFF,
    ensures
        read_name(pre + name_record(n) + post, pre.len() as int) == Some(
            Ok::<(Seq<char>, int), ObjectParseErr>((n, (pre.len() + 2 + encode_utf8(n).len()) as int)),
        ),
{
    let enc = encode_utf8(n);
    let len = enc.len() as int;
    let data = pre + name_record(n) + post;
    let c = pre.len() as int;
    lemma_be_at(pre, len as u16, enc + post);
    assert(data =~= pre + be_bytes(len as u16) + (enc + post));
    assert(be_word(data[c], data[c + 1]) as int == len);
    assert(data.subrange(c + 2, c + 2 + len) =~= enc) by {
        assert forall|j: int| 0 <= j < len implies data.subrange(c + 2, c + 2 + len)[j] == enc[j] by {
            assert(data[c + 2 + j] == name_record(n)[2 + j]);
        }
    }
    vstd::utf8::encode_utf8_valid_utf8(n);
    vstd::utf8::encode_utf8_decode_utf8(n);
}

/// The number of bytes of a (name, word) table: four per entry and each name's UTF-8 bytes.
pub open spec fn entries_len(es: Seq<(Seq<char>, u16)>) -> int
    decreases es.len(),
{
    if es.len() == 0 {
        0
    } else {
        entries_len(es.drop_last()) + 4 + encode_utf8(es.last().0).len()
    }
}

proof fn lemma_entries_bytes_len(es: Seq<(Seq<char>, u16)>)
    ensures
        entries_bytes(es).len() == entries_len(es),
    decreases es.len(),
{
    if es.len() > 0 {
        lemma_entries_bytes_len(es.drop_last());
    }
}

proof fn lemma_words_bytes_len(ws: Seq<u16>)
    ensures
        words_bytes(ws).len() == 2 * ws.len(),
    decreases ws.len(),
{
    if ws.len() > 0 {
        lemma_words_bytes_len(ws.drop_last());
    }
}

/// The encoding of an object depends only on its exports, its relocations and its bytecode. It
/// starts with `"vmro"` and is 10 bytes long plus 4 per export and external relocation, the
/// UTF-8 bytes of their names, 2 per internal relocation and the bytecode.
pub proof fn lemma_binary_shape(m: ObjectModel, m2: ObjectModel)
    requires
        m2.exports == m.exports,
        m2.external_relocations == m.external_relocations,
        m2.internal_relocations == m.internal_relocations,
        m2.bytecode == m.bytecode,
    ensures
        spec_to_binary(m2) == spec_to_binary(m),
        spec_to_binary(m).subrange(0, 4) == object_magic(),
        spec_to_binary(m).len() == 10 + entries_len(m.exports) + entries_len(m.external_relocations)
            + 2 * m.internal_relocations.len() + m.bytecode.len(),
{
    lemma_entries_bytes_len(m.exports);
    lemma_entries_bytes_len(m.external_relocations);
    lemma_words_bytes_len(m.internal_relocations);
    let d = spec_to_binary(m);
    assert(d.subrange(0, 4) =~= object_magic()) by {
        assert forall|j: int| 0 <= j < 4 implies d[j] == object_magic()[j] by {}
    }
}


} // verus!
