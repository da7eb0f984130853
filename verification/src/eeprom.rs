//! Formatting of Wii Remote EEPROM dumps.
//!
//! The output format is the one of the `xwiidump` utility: eight bytes
//! per line, with an end marker that is not followed by a newline.  The
//! byte stream is read by the caller; this module turns what was read into
//! the exact text of both output streams.

use vstd::prelude::*;
use crate::text::{decimal, hex, pad_left, push_decimal_padded, push_hex_padded, seq_ends_with, signed_decimal, push_signed, ends_with};

verus! {

/// Number of bytes in one displayed EEPROM record.
pub const RECORD_SIZE: usize = 8;

/// How reading the EEPROM stream ended.
#[derive(Clone, Debug, PartialEq, Eq)]
pub enum ReadEnd {
    /// The stream ended.
    Eof,
    /// A read failed with `errno`, described as `description`.
    Failed { errno: i32, description: String },
}

/// The text of both output streams and whether the dump was complete.
#[derive(Clone, Debug, PartialEq, Eq)]
pub struct DumpOutput {
    pub stdout: String,
    pub stderr: String,
    pub complete: bool,
}

/// The usage text: two lines naming the program.
pub open spec fn usage_text(program: Seq<char>) -> Seq<char> {
    "Usage: "@ + program + " FILE\n"@
        + "Read a Wii Remote EEPROM file and write its contents to stdout.\n"@
}

/// The two-line usage text of the command.
pub fn usage(program: &str) -> (r: String)
    ensures
        r@ == usage_text(program@),
{
    let mut s = String::new();
    s.append("Usage: ");
    s.append(program);
    s.append(" FILE\n");
    s.append("Read a Wii Remote EEPROM file and write its contents to stdout.\n");
    s
}

/// The suffix that Rust adds to the description of an operating-system error.
pub open spec fn os_error_suffix(errno: int) -> Seq<char> {
    " (os error "@ + signed_decimal(errno) + ")"@
}

/// The description of an error in the form `strerror(3)` gives: the text
/// without the ` (os error N)` suffix that Rust appends to OS errors.
pub open spec fn error_description_spec(text: Seq<char>, errno: Option<i32>) -> Seq<char> {
    match errno {
        None => text,
        Some(e) => {
            let suffix = os_error_suffix(e as int);
            if seq_ends_with(text, suffix) {
                text.subrange(0, text.len() - suffix.len())
            } else {
                text
            }
        },
    }
}

/// The `strerror(3)`-style description of an error, given the error's
/// display text and its OS error number, if any.
pub fn error_description(text: &str, errno: Option<i32>) -> (r: String)
    ensures
        r@ == error_description_spec(text@, errno),
{
    match errno {
        None => String::from_str(text),
        Some(e) => {
            let mut suffix = String::new();
            suffix.append(" (os error ");
            push_signed(&mut suffix, e as i64);
            suffix.append(")");
            if ends_with(text, suffix.as_str()) {
                let n = text.unicode_len();
                let m = suffix.as_str().unicode_len();
                String::from_str(text.substring_char(0, n - m))
            } else {
                String::from_str(text)
            }
        },
    }
}

/// ` 0xNN`: one byte in two lowercase hexadecimal digits.
pub open spec fn byte_text(b: u8) -> Seq<char> {
    " 0x"@ + pad_left(hex(b as nat), 2, '0')
}

/// The text of a run of bytes.
pub open spec fn bytes_text(s: Seq<u8>) -> Seq<char>
    decreases s.len(),
{
    if s.len() == 0 {
        Seq::empty()
    } else {
        bytes_text(s.drop_last()) + byte_text(s.last())
    }
}

/// `0xNNNNNNNN:`: the offset of a record, in eight zero-padded *decimal*
/// digits, as `xwiidump` prints it.
pub open spec fn record_header(offset: nat) -> Seq<char> {
    "0x"@ + pad_left(decimal(offset), 8, '0') + ":"@
}

/// The first `n` complete records, one line each.
pub open spec fn records_text(data: Seq<u8>, n: nat) -> Seq<char>
    decreases n,
{
    if n == 0 {
        Seq::empty()
    } else {
        records_text(data, (n - 1) as nat) + record_header(((n - 1) * 8) as nat) + bytes_text(
            data.subrange((n - 1) * 8, (n * 8) as int),
        ) + "\n"@
    }
}

/// The standard output of a dump of `data` whose reading ended with `end`:
/// every complete record on its own line, then the header of the record in
/// progress, its bytes, and the end marker, without a newline.
pub open spec fn dump_stdout(data: Seq<u8>, end: ReadEnd) -> Seq<char> {
    let full = data.len() / 8;
    records_text(data, full) + record_header(full * 8) + bytes_text(
        data.subrange((full * 8) as int, data.len() as int),
    ) + match end {
        ReadEnd::Eof => " (eof)"@,
        ReadEnd::Failed { errno, description } => " (read error "@ + signed_decimal(errno as int)
            + ")"@,
    }
}

/// The diagnostics of a dump: a stream that ends inside a record, or a read
/// failure, is reported with the byte offset in hexadecimal.
pub open spec fn dump_stderr(data: Seq<u8>, end: ReadEnd, file: Seq<char>) -> Seq<char> {
    let offset = pad_left(hex(data.len()), 8, '0');
    match end {
        ReadEnd::Eof => if data.len() % 8 == 0 {
            Seq::empty()
        } else {
            "Unexpected end of eeprom file '"@ + file + "' at offset 0x"@ + offset + "\n"@
        },
        ReadEnd::Failed { errno, description } => "Cannot read eeprom file '"@ + file
            + "' at offset 0x"@ + offset + ": "@ + description@ + "\n"@,
    }
}

/// Appends ` 0xNN` for every byte of `data[from..to]`.
fn push_bytes(s: &mut String, data: &[u8], from: usize, to: usize)
    requires
        from <= to <= data@.len(),
    ensures
        final(s)@ == old(s)@ + bytes_text(data@.subrange(from as int, to as int)),
{
    let ghost start = s@;
    let mut i: usize = from;
    while i < to
        invariant
            from <= i <= to,
            to <= data@.len(),
            s@ == start + bytes_text(data@.subrange(from as int, i as int)),
        decreases to - i,
    {
        s.append(" 0x");
        push_hex_padded(s, data[i] as u64, 2);
        proof {
            let next = data@.subrange(from as int, i + 1);
            assert(next.drop_last() =~= data@.subrange(from as int, i as int));
            assert(s@ =~= start + bytes_text(next));
        }
        i = i + 1;
    }
}

/// Appends the header of the record starting at `offset`.
fn push_header(s: &mut String, offset: usize)
    ensures
        final(s)@ == old(s)@ + record_header(offset as nat),
{
    let ghost start = s@;
    s.append("0x");
    push_decimal_padded(s, offset as u64, 8);
    s.append(":");
    assert(s@ =~= start + record_header(offset as nat));
}

/// Formats a dump of the bytes `data`, read from the file named `file`,
/// whose reading ended with `end`.  The dump is complete when the stream
/// ended on a record boundary (an empty stream included); a stream that
/// ends inside a record, or a read failure, makes it incomplete.
pub fn dump(data: &[u8], end: &ReadEnd, file: &str) -> (r: DumpOutput)
    ensures
        r.stdout@ == dump_stdout(data@, *end),
        r.stderr@ == dump_stderr(data@, *end, file@),
        r.complete == (*end == ReadEnd::Eof && data@.len() % 8 == 0),
{
    let n = data.len();
    let full = n / RECORD_SIZE;
    let mut out = String::new();
    let mut k: usize = 0;
    while k < full
        invariant
            n == data@.len(),
            full == n / 8,
            k <= full,
            out@ == records_text(data@, k as nat),
        decreases full - k,
    {
        let ghost before = out@;
        push_header(&mut out, k * RECORD_SIZE);
        push_bytes(&mut out, data, k * RECORD_SIZE, k * RECORD_SIZE + RECORD_SIZE);
        out.append("\n");
        proof {
            assert(out@ =~= records_text(data@, (k + 1) as nat));
        }
        k = k + 1;
    }
    push_header(&mut out, full * RECORD_SIZE);
    push_bytes(&mut out, data, full * RECORD_SIZE, n);
    let mut err = String::new();
    let complete;
    match end {
        ReadEnd::Eof => {
            out.append(" (eof)");
            if n % RECORD_SIZE != 0 {
                err.append("Unexpected end of eeprom file '");
                err.append(file);
                err.append("' at offset 0x");
                push_hex_padded(&mut err, n as u64, 8);
                err.append("\n");
                complete = false;
            } else {
                complete = true;
            }
        },
        ReadEnd::Failed { errno, description } => {
            out.append(" (read error ");
            push_signed(&mut out, *errno as i64);
            out.append(")");
            err.append("Cannot read eeprom file '");
            err.append(file);
            err.append("' at offset 0x");
            push_hex_padded(&mut err, n as u64, 8);
            err.append(": ");
            err.append(description.as_str());
            err.append("\n");
            complete = false;
        },
    }
    proof {
        assert(out@ =~= dump_stdout(data@, *end));
        assert(err@ =~= dump_stderr(data@, *end, file@));
    }
    DumpOutput { stdout: out, stderr: err, complete }
}

} // verus!
