//! Interacting with the host's console and chat window: well-known paths,
//! recoloring ANSI escape codes into the host's own color codes, and the
//! line-buffered console writer.

use vstd::prelude::*;
use vstd::string::{StringExecFns, StringSliceAdditionalSpecFns};
use vstd::utf8::{decode_utf8, valid_utf8};

use crate::eq::Channel;
use crate::text::{
    bytes_to_str, find_byte_spec, lemma_split_bytes_first_sep, lemma_split_bytes_no_sep,
    lemma_valid_utf8_split_at_ascii, spec_find_byte, spec_split_bytes, string_push,
};

verus! {

/// The well-known directories of a MacroQuest installation, as the host
/// reports them. The glue layer reads the nine strings from the host once
/// and keeps the resulting value for the life of the process.
#[derive(Clone, Debug)]
pub struct Paths {
    /// The MacroQuest root directory.
    pub root: String,
    /// The configuration directory.
    pub config: String,
    /// The MacroQuest.ini path.
    pub ini: String,
    /// The macro scripts directory.
    pub macros: String,
    /// The log directory.
    pub logs: String,
    /// The crash-dump directory.
    pub crash_dumps: String,
    /// The plugins directory.
    pub plugins: String,
    /// The resources directory.
    pub resources: String,
    /// The EverQuest installation directory.
    pub everquest: String,
}

impl Paths {
    /// The MacroQuest root directory.
    pub fn root(&self) -> (path: &str)
        ensures
            path@ == self.root@,
    {
        self.root.as_str()
    }

    /// The configuration directory.
    pub fn config(&self) -> (path: &str)
        ensures
            path@ == self.config@,
    {
        self.config.as_str()
    }

    /// The MacroQuest.ini path.
    pub fn ini(&self) -> (path: &str)
        ensures
            path@ == self.ini@,
    {
        self.ini.as_str()
    }

    /// The macro scripts directory.
    pub fn macros(&self) -> (path: &str)
        ensures
            path@ == self.macros@,
    {
        self.macros.as_str()
    }

    /// The log directory.
    pub fn logs(&self) -> (path: &str)
        ensures
            path@ == self.logs@,
    {
        self.logs.as_str()
    }

    /// The crash-dump directory.
    pub fn crash_dumps(&self) -> (path: &str)
        ensures
            path@ == self.crash_dumps@,
    {
        self.crash_dumps.as_str()
    }

    /// The plugins directory.
    pub fn plugins(&self) -> (path: &str)
        ensures
            path@ == self.plugins@,
    {
        self.plugins.as_str()
    }

    /// The resources directory.
    pub fn resources(&self) -> (path: &str)
        ensures
            path@ == self.resources@,
    {
        self.resources.as_str()
    }

    /// The EverQuest installation directory.
    pub fn everquest(&self) -> (path: &str)
        ensures
            path@ == self.everquest@,
    {
        self.everquest.as_str()
    }
}

/// Assemble the well-known paths from the nine directory strings the host
/// reports.
pub fn paths(
    root: String,
    config: String,
    ini: String,
    macros: String,
    logs: String,
    crash_dumps: String,
    plugins: String,
    resources: String,
    everquest: String,
) -> (p: Paths)
    ensures
        p.root@ == root@,
        p.config@ == config@,
        p.ini@ == ini@,
        p.macros@ == macros@,
        p.logs@ == logs@,
        p.crash_dumps@ == crash_dumps@,
        p.plugins@ == plugins@,
        p.resources@ == resources@,
        p.everquest@ == everquest@,
{
    Paths { root, config, ini, macros, logs, crash_dumps, plugins, resources, everquest }
}

/// One styled slice of a line, as the ANSI categorizer reports it: the
/// slice text, the foreground color as an index in the categorizer's own
/// color order, and whether the faint intensity applies.
#[derive(Clone, Debug)]
pub struct AnsiSlice {
    /// The text of the slice.
    pub text: String,
    /// The foreground color, as an index in the categorizer's color order,
    /// if one is set.
    pub fg: Option<u8>,
    /// Whether the faint intensity applies.
    pub faint: bool,
}

impl View for AnsiSlice {
    type V = (Seq<char>, Option<u8>, bool);

    open spec fn view(&self) -> Self::V {
        (self.text@, self.fg, self.faint)
    }
}

impl DeepView for AnsiSlice {
    type V = (Seq<char>, Option<u8>, bool);

    open spec fn deep_view(&self) -> Self::V {
        self.view()
    }
}

/// What cansi's categorizer yields on a line: the styled slices, in order,
/// each with its text, foreground color index and faint flag. The parse
/// depends on the characters alone.
pub uninterp spec fn ansi_slices_of(line: Seq<char>) -> Seq<(Seq<char>, Option<u8>, bool)>;

/// Relies on cansi's `categorise_text`: parses the ANSI escape codes in a
/// line into styled slices. The foreground color comes out as the index of
/// the variant in cansi's own `Color` order (the eight standard colors,
/// then their bright doubles), so every reported index is below sixteen.
#[verifier::external_body]
fn categorise_ansi(line: &str) -> (slices: Vec<AnsiSlice>)
    ensures
        slices.deep_view() == ansi_slices_of(line@),
        forall|i: int| #![trigger slices@[i]]
            0 <= i < slices@.len() ==> (slices@[i].fg matches Some(color) ==> color < 16),
{
    cansi::v3::categorise_text(line)
        .iter()
        .map(|m| AnsiSlice {
            text: m.text.to_string(),
            fg: m.fg.map(|c| c as u8),
            faint: m.intensity == Some(cansi::Intensity::Faint),
        })
        .collect()
}

/// The host's color-code letter for each of the sixteen ANSI foreground
/// colors: the host supports ten color codes, so the eight standard ANSI
/// colors map and each bright double maps with its standard sibling.
pub open spec fn spec_mq_letter(color: u8) -> char {
    if color == 0 || color == 8 {
        'b'
    } else if color == 1 || color == 9 {
        'r'
    } else if color == 2 || color == 10 {
        'g'
    } else if color == 3 || color == 11 {
        'o'
    } else if color == 4 || color == 12 {
        'u'
    } else if color == 5 || color == 13 {
        'p'
    } else if color == 6 || color == 14 {
        't'
    } else {
        'w'
    }
}

/// The host's color-code letter for an ANSI foreground color index.
pub fn mq_letter(color: u8) -> (letter: char)
    ensures
        letter == spec_mq_letter(color),
{
    if color == 0 || color == 8 {
        'b'
    } else if color == 1 || color == 9 {
        'r'
    } else if color == 2 || color == 10 {
        'g'
    } else if color == 3 || color == 11 {
        'o'
    } else if color == 4 || color == 12 {
        'u'
    } else if color == 5 || color == 13 {
        'p'
    } else if color == 6 || color == 14 {
        't'
    } else {
        'w'
    }
}

/// How one styled slice renders in the host's color codes: uncolored text
/// passes through; colored text is wrapped in the host's color-code
/// control character, a dash for the faint (darker) variant, the color
/// letter, and the reset-to-normal code.
pub open spec fn spec_render_slice(slice: (Seq<char>, Option<u8>, bool)) -> Seq<char> {
    match slice.1 {
        None => slice.0,
        Some(color) => seq!['\u{7}'] + (if slice.2 {
            seq!['-']
        } else {
            Seq::<char>::empty()
        }) + seq![spec_mq_letter(color)] + slice.0 + seq!['\u{7}', 'x'],
    }
}

/// How a whole categorized line renders: each slice in order.
pub open spec fn spec_render_slices(slices: Seq<(Seq<char>, Option<u8>, bool)>) -> Seq<char>
    decreases slices.len(),
{
    if slices.len() == 0 {
        Seq::<char>::empty()
    } else {
        spec_render_slice(slices[0]) + spec_render_slices(slices.drop_first())
    }
}

/// What [`colorize_line`] yields: a line without an escape byte passes
/// through unchanged; otherwise the line renders slice by slice in the
/// host's color codes.
pub open spec fn spec_colorized(line: &str) -> Seq<char> {
    if spec_find_byte(line.spec_bytes(), 0x1b) is None {
        line@
    } else {
        spec_render_slices(ansi_slices_of(line@))
    }
}

/// Convert the standard ANSI foreground color codes in a line into the
/// host's own color codes.
///
/// The host's console does not understand ANSI escapes, but the eight
/// standard colors (and the faint intensity, rendered as the darker
/// variant) have host equivalents; every other ANSI code is dropped. A
/// line that holds no escape byte is returned unchanged.
pub fn colorize_line(line: &str) -> (colored: String)
    ensures
        colored@ == spec_colorized(line),
{
    match find_byte_spec(0x1b, line.as_bytes()) {
        None => line.to_owned(),
        Some(_) => {
            let slices = categorise_ansi(line);
            let ghost all = ansi_slices_of(line@);
            let mut out = String::new();
            let n = slices.len();
            let mut i: usize = 0;
            proof {
                assert(all.skip(0) =~= all);
            }
            while i < n
                invariant
                    n == slices@.len(),
                    i <= n,
                    slices.deep_view() == all,
                    forall|j: int| #![trigger slices@[j]]
                        0 <= j < n ==> (slices@[j].fg matches Some(color) ==> color < 16),
                    out@ + spec_render_slices(all.skip(i as int)) == spec_render_slices(all),
                decreases n - i,
            {
                let slice = &slices[i];
                let ghost remaining = all.skip(i as int);
                proof {
                    assert(slices@[i as int].deep_view() == all[i as int]);
                    assert(remaining[0] == all[i as int]);
                    assert(remaining.drop_first() =~= all.skip(i + 1));
                }
                let ghost before = out@;
                match slice.fg {
                    None => {
                        out.append(slice.text.as_str());
                    },
                    Some(color) => {
                        string_push(&mut out, '\u{7}');
                        if slice.faint {
                            string_push(&mut out, '-');
                        }
                        string_push(&mut out, mq_letter(color));
                        out.append(slice.text.as_str());
                        string_push(&mut out, '\u{7}');
                        string_push(&mut out, 'x');
                    },
                }
                proof {
                    assert(out@ =~= before + spec_render_slice(all[i as int]));
                    assert(out@ + spec_render_slices(all.skip(i + 1)) =~= spec_render_slices(all));
                }
                i += 1;
            }
            proof {
                assert(all.skip(n as int) =~= Seq::<(Seq<char>, Option<u8>, bool)>::empty());
                assert(out@ =~= out@ + spec_render_slices(all.skip(n as int)));
            }
            out
        },
    }
}

/// Prepare a line of text for the host's console under the default chat
/// channel: the recolored line and the channel code to hand to the host's
/// own write call.
pub fn write_chat(line: &str) -> (call: (String, i32))
    ensures
        call.0@ == spec_colorized(line),
        call.1 == crate::eq::spec_channel_code(Channel::Default),
{
    write_chat_color(line, Channel::default())
}

/// Prepare a line of text for the host's console under the given chat
/// channel: the recolored line and the channel code to hand to the host's
/// own write call.
pub fn write_chat_color(line: &str, color: Channel) -> (call: (String, i32))
    ensures
        call.0@ == spec_colorized(line),
        call.1 == crate::eq::spec_channel_code(color),
{
    (colorize_line(line), i32::from(color))
}

/// The error returned when bytes handed to the console are not valid
/// UTF-8.
#[derive(Copy, Clone, Debug, PartialEq, Eq, Structural)]
pub struct ConsoleWriteError;

/// The line-buffered writer behind the host console.
///
/// The host console only supports emitting whole lines, so written bytes
/// are buffered until a newline arrives; each write returns the completed
/// lines (without their newlines) for the caller to emit, and keeps the
/// unterminated tail buffered. Its view is the buffered bytes, which are
/// always valid UTF-8.
#[derive(Debug)]
pub struct InternalConsoleWriter {
    buffer: Vec<u8>,
}

impl View for InternalConsoleWriter {
    type V = Seq<u8>;

    closed spec fn view(&self) -> Seq<u8> {
        self.buffer@
    }
}

impl InternalConsoleWriter {
    /// The buffered bytes are valid UTF-8.
    pub open spec fn wf(&self) -> bool {
        valid_utf8(self@)
    }

    /// A writer with an empty buffer.
    pub fn new() -> (writer: InternalConsoleWriter)
        ensures
            writer@ == Seq::<u8>::empty(),
            writer.wf(),
    {
        let writer = InternalConsoleWriter { buffer: Vec::new() };
        proof {
            assert(writer@ =~= Seq::<u8>::empty());
        }
        writer
    }

    /// Append bytes and hand back the lines they complete.
    ///
    /// The incoming bytes must be valid UTF-8 on their own, or the write is
    /// refused and the buffer is untouched. On success: with `full` the old
    /// buffer followed by the written bytes, and `full` split at newlines,
    /// every field but the last comes back decoded, in order, and the last
    /// field stays buffered. The returned count is how many bytes left the
    /// buffer: the length of `full` up to and including its last newline.
    pub fn write(&mut self, buf: &[u8]) -> (r: Result<(usize, Vec<String>), ConsoleWriteError>)
        requires
            old(self).wf(),
        ensures
            final(self).wf(),
            r is Err <==> !valid_utf8(buf@),
            r is Err ==> final(self)@ == old(self)@,
            r matches Ok(output) ==> ({
                let full = old(self)@ + buf@;
                let parts = spec_split_bytes(full, 10);
                &&& final(self)@ == parts.last()
                &&& output.0 + parts.last().len() == full.len()
                &&& output.1.deep_view().len() == parts.len() - 1
                &&& (forall|i: int|
                    0 <= i < parts.len() - 1 ==> output.1.deep_view()[i] == decode_utf8(
                        #[trigger] parts[i],
                    ))
            }),
    {
        if bytes_to_str(buf).is_none() {
            return Err(ConsoleWriteError);
        }
        let ghost full = old(self)@ + buf@;
        proof {
            vstd::utf8::valid_utf8_concat(old(self)@, buf@);
        }
        let m = buf.len();
        let mut k: usize = 0;
        while k < m
            invariant
                k <= m,
                m == buf@.len(),
                self@ == old(self)@ + buf@.subrange(0, k as int),
            decreases m - k,
        {
            let byte = buf[k];
            self.buffer.push(byte);
            proof {
                assert(self@ =~= old(self)@ + buf@.subrange(0, k + 1));
            }
            k += 1;
        }
        proof {
            assert(buf@.subrange(0, m as int) =~= buf@);
            assert(self@ == full);
        }
        let mut lines: Vec<String> = Vec::new();
        let ghost mut pieces: Seq<Seq<u8>> = Seq::empty();
        let mut start: usize = 0;
        proof {
            assert(full.skip(0) =~= full);
            assert(spec_split_bytes(full, 10) =~= pieces + spec_split_bytes(full.skip(0), 10));
        }
        loop
            invariant_except_break
                self@ == full,
                valid_utf8(full),
                start <= full.len(),
                valid_utf8(full.skip(start as int)),
                spec_split_bytes(full, 10) == pieces + spec_split_bytes(
                    full.skip(start as int),
                    10,
                ),
                lines.deep_view().len() == pieces.len(),
                forall|i: int|
                    0 <= i < pieces.len() ==> lines.deep_view()[i] == decode_utf8(
                        #[trigger] pieces[i],
                    ),
            ensures
                self@ == full,
                start <= full.len(),
                valid_utf8(full.skip(start as int)),
                spec_split_bytes(full, 10) == pieces + spec_split_bytes(
                    full.skip(start as int),
                    10,
                ),
                lines.deep_view().len() == pieces.len(),
                forall|i: int|
                    0 <= i < pieces.len() ==> lines.deep_view()[i] == decode_utf8(
                        #[trigger] pieces[i],
                    ),
                spec_find_byte(full.skip(start as int), 10) is None,
            decreases full.len() - start,
        {
            let n = self.buffer.len();
            let seg = &self.buffer.as_slice()[start..n];
            proof {
                assert(seg@ =~= full.skip(start as int));
            }
            match find_byte_spec(10, seg) {
                None => {
                    break;
                },
                Some(rel) => {
                    let ghost remaining = full.skip(start as int);
                    proof {
                        crate::text::lemma_find_byte(remaining, 10);
                    }
                    let abs = start + rel;
                    let piece_slice = &self.buffer.as_slice()[start..abs];
                    proof {
                        assert(piece_slice@ =~= remaining.subrange(0, rel as int));
                        assert(remaining[rel as int] == 10);
                        lemma_valid_utf8_split_at_ascii(remaining, rel as int);
                        lemma_split_bytes_first_sep(remaining, 10, rel as int);
                        assert(remaining.subrange(rel + 1, remaining.len() as int) =~= full.skip(
                            abs + 1,
                        ));
                    }
                    let ghost lines_before = lines.deep_view();
                    match bytes_to_str(piece_slice) {
                        Some(text) => {
                            lines.push(text.to_owned());
                            proof {
                                assert(lines.deep_view() =~~= lines_before.push(text@));
                            }
                        },
                        None => {
                            proof {
                                assert(false);
                            }
                            return Err(ConsoleWriteError);
                        },
                    }
                    proof {
                        let piece = remaining.subrange(0, rel as int);
                        pieces = pieces.push(piece);
                        assert(spec_split_bytes(full, 10) =~= pieces + spec_split_bytes(
                            full.skip(abs + 1),
                            10,
                        ));
                    }
                    start = abs + 1;
                },
            }
        }
        let ghost remaining = full.skip(start as int);
        proof {
            crate::text::lemma_find_byte(remaining, 10);
            lemma_split_bytes_no_sep(remaining, 10);
        }
        let n = self.buffer.len();
        let tail = vstd::slice::slice_to_vec(&self.buffer.as_slice()[start..n]);
        self.buffer = tail;
        proof {
            assert(self@ =~= remaining);
            let parts = spec_split_bytes(full, 10);
            assert(parts =~= pieces + seq![remaining]);
            assert(parts.last() == remaining);
            assert(parts.len() - 1 == pieces.len());
            assert forall|i: int| 0 <= i < parts.len() - 1 implies lines.deep_view()[i]
                == decode_utf8(#[trigger] parts[i]) by {
                assert(parts[i] == pieces[i]);
            }
        }
        Ok((start, lines))
    }

    /// Flushing is a no-op: only a newline completes a line.
    pub fn flush(&mut self)
        ensures
            *final(self) == *old(self),
    {
    }
}

/// A handle to the console stream of the current MacroQuest process.
///
/// The host console only supports emitting whole lines: writes buffer
/// until a newline arrives, and each write hands back the completed lines
/// for the glue layer to pass to the host. The glue layer shares one
/// handle process-wide behind a lock.
#[derive(Debug)]
pub struct Console {
    /// The line buffer behind the handle.
    pub writer: InternalConsoleWriter,
}

impl Console {
    /// Append bytes and hand back the lines they complete, as
    /// [`InternalConsoleWriter::write`] does.
    pub fn write(&mut self, buf: &[u8]) -> (r: Result<(usize, Vec<String>), ConsoleWriteError>)
        requires
            old(self).writer.wf(),
        ensures
            final(self).writer.wf(),
            r is Err <==> !valid_utf8(buf@),
            r is Err ==> final(self).writer@ == old(self).writer@,
            r matches Ok(output) ==> ({
                let full = old(self).writer@ + buf@;
                let parts = spec_split_bytes(full, 10);
                &&& final(self).writer@ == parts.last()
                &&& output.0 + parts.last().len() == full.len()
                &&& output.1.deep_view().len() == parts.len() - 1
                &&& (forall|i: int|
                    0 <= i < parts.len() - 1 ==> output.1.deep_view()[i] == decode_utf8(
                        #[trigger] parts[i],
                    ))
            }),
    {
        self.writer.write(buf)
    }

    /// Flushing is a no-op: only a newline completes a line.
    pub fn flush(&mut self)
        ensures
            *final(self) == *old(self),
    {
    }
}

/// Construct a new handle to the console stream.
pub fn console() -> (c: Console)
    ensures
        c.writer@ == Seq::<u8>::empty(),
        c.writer.wf(),
{
    Console { writer: InternalConsoleWriter::new() }
}

} // verus!
