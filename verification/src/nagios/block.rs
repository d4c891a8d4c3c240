//! The blocks of the status file.
//!
//! The file is read line by line. White space around a line does not count;
//! empty lines and lines that begin with `#` are passed over. A line that
//! opens a block names its kind; the lines after it, up to a line that holds
//! only `}`, each give a key and a value with `=` between them.

use vstd::prelude::*;
use crate::nagios::fields::KeyValues;
use crate::nagios::object::Fields;
use crate::text::{
    chars_of, is_not, leading, lemma_leading, lemma_leading_bounds, same_text, text_of, trim,
    trim_bounds,
};

verus! {

/// Why a text is not a sequence of blocks.
#[derive(Debug, PartialEq)]
pub enum ParseError {
    /// A line inside a block has no `=`.
    InvalidKeyValue(String),
    /// A line outside a block opens none.
    UnexpectedLine(String),
    /// The text ends inside a block.
    UnexpectedEndOfLine,
}

/// A `ParseError` with each text as its characters.
pub enum ParseErrorView {
    InvalidKeyValue(Seq<char>),
    UnexpectedLine(Seq<char>),
    UnexpectedEndOfLine,
}

impl View for ParseError {
    type V = ParseErrorView;

    open spec fn view(&self) -> ParseErrorView {
        match self {
            ParseError::InvalidKeyValue(line) => ParseErrorView::InvalidKeyValue(line@),
            ParseError::UnexpectedLine(line) => ParseErrorView::UnexpectedLine(line@),
            ParseError::UnexpectedEndOfLine => ParseErrorView::UnexpectedEndOfLine,
        }
    }
}

/// The kinds of block.
#[derive(Debug, Clone, Copy, PartialEq, Eq, Structural)]
pub enum BlockType {
    Info,
    Program,
    Host,
    Service,
    Contact,
    Unknown,
}

/// One block: its kind and its fields.
#[derive(Debug, PartialEq)]
pub struct Block {
    pub block_type: BlockType,
    pub key_values: KeyValues,
}

/// A `Block` with its fields as a map of characters.
pub struct BlockView {
    pub block_type: BlockType,
    pub key_values: Fields,
}

impl View for Block {
    type V = BlockView;

    open spec fn view(&self) -> BlockView {
        BlockView { block_type: self.block_type, key_values: self.key_values@ }
    }
}

/// The length of the first line of `text`: the characters before its first
/// line feed.
pub open spec fn line_len(text: Seq<char>) -> int {
    leading(text, is_not('\n'))
}

/// Whether a trimmed line counts: it is not empty and does not begin with `#`.
pub open spec fn is_content(line: Seq<char>) -> bool {
    line.len() > 0 && line[0] != '#'
}

/// The lines of `text` that count, each without the white space around it.
pub open spec fn content_lines(text: Seq<char>) -> Seq<Seq<char>>
    decreases text.len(),
{
    let n = line_len(text);
    let line = trim(text.take(n));
    let head = if is_content(line) {
        seq![line]
    } else {
        Seq::empty()
    };
    if 0 <= n < text.len() {
        head + content_lines(text.skip(n + 1))
    } else {
        head
    }
}

/// The kind of block that `line` opens, if it opens one.
pub open spec fn opened(line: Seq<char>) -> Option<BlockType> {
    if line == "info {"@ {
        Some(BlockType::Info)
    } else if line == "programstatus {"@ {
        Some(BlockType::Program)
    } else if line == "hoststatus {"@ {
        Some(BlockType::Host)
    } else if line == "servicestatus {"@ {
        Some(BlockType::Service)
    } else if line == "contactstatus {"@ {
        Some(BlockType::Contact)
    } else {
        None
    }
}

/// The key and the value that `line` gives: what stands before its first `=`
/// and what stands after it.
pub open spec fn key_value(line: Seq<char>) -> Option<(Seq<char>, Seq<char>)> {
    let n = leading(line, is_not('='));
    if 0 <= n < line.len() {
        Some((line.take(n), line.skip(n + 1)))
    } else {
        None
    }
}

/// A line is split at its first `=`: the key holds no `=`, and the key, a
/// `=` and the value make the line. A line without `=` gives nothing.
pub proof fn lemma_key_value_splits_at_the_first_equals_sign(line: Seq<char>)
    ensures
        key_value(line) is Some <==> line.contains('='),
        key_value(line) matches Some((key, value)) ==> !key.contains('=') && line == key + seq![
            '=',
        ] + value,
{
    lemma_leading_bounds(line, is_not('='));
    let n = leading(line, is_not('='));
    if line.contains('=') {
        let i = choose|i: int| 0 <= i < line.len() && line[i] == '=';
        if n >= line.len() {
            assert(is_not('=')(line[i]));
        }
    }
    if n < line.len() {
        assert(line[n] == '=');
        let key = line.take(n);
        let value = line.skip(n + 1);
        assert(line =~= key + seq!['='] + value);
        if key.contains('=') {
            let i = choose|i: int| 0 <= i < key.len() && key[i] == '=';
            assert(is_not('=')(line[i]));
        }
    }
}

/// Where the reader stands: outside every block, or within one of which it
/// has the kind and the fields read so far.
pub enum Cursor {
    Outside,
    Within(BlockView),
}

/// What one line does to the reader.
pub enum Step {
    /// The reader goes on from a new place.
    Move(Cursor),
    /// A block is complete, and the reader is outside again.
    Emit(BlockView),
    /// The line is refused.
    Fail(ParseErrorView),
}

/// What `line` does to a reader that stands at `cursor`.
pub open spec fn step(cursor: Cursor, line: Seq<char>) -> Step {
    match cursor {
        Cursor::Outside => match opened(line) {
            Some(block_type) => Step::Move(
                Cursor::Within(BlockView { block_type, key_values: Map::empty() }),
            ),
            None => Step::Fail(ParseErrorView::UnexpectedLine(line)),
        },
        Cursor::Within(block) => if line == "}"@ {
            Step::Emit(block)
        } else {
            match key_value(line) {
                Some((key, value)) => Step::Move(
                    Cursor::Within(
                        BlockView {
                            block_type: block.block_type,
                            key_values: block.key_values.insert(key, value),
                        },
                    ),
                ),
                None => Step::Fail(ParseErrorView::InvalidKeyValue(line)),
            }
        },
    }
}

/// What a reader makes of some lines: the blocks that are complete, in their
/// order, and the error that stopped it, if one did.
pub struct Scan {
    pub blocks: Seq<BlockView>,
    pub error: Option<ParseErrorView>,
}

impl Scan {
    /// The blocks, each as a success, and after them the error, if any.
    pub open spec fn items(self) -> Seq<Result<BlockView, ParseErrorView>> {
        let blocks = Seq::new(self.blocks.len(), |i: int| Ok(self.blocks[i]));
        match self.error {
            Some(error) => blocks.push(Err(error)),
            None => blocks,
        }
    }
}

/// What a reader at `cursor` makes of `lines[at..]`. It stops at the first
/// line that is refused, and the end of the lines inside a block is an error.
pub open spec fn scan(lines: Seq<Seq<char>>, at: int, cursor: Cursor) -> Scan
    decreases lines.len() - at,
{
    if at >= lines.len() {
        match cursor {
            Cursor::Outside => Scan { blocks: Seq::empty(), error: None },
            Cursor::Within(_) => Scan {
                blocks: Seq::empty(),
                error: Some(ParseErrorView::UnexpectedEndOfLine),
            },
        }
    } else {
        match step(cursor, lines[at]) {
            Step::Move(next) => scan(lines, at + 1, next),
            Step::Emit(block) => {
                let rest = scan(lines, at + 1, Cursor::Outside);
                Scan { blocks: seq![block] + rest.blocks, error: rest.error }
            },
            Step::Fail(error) => Scan { blocks: Seq::empty(), error: Some(error) },
        }
    }
}

/// Whether a reader at `cursor` knows the kind of the block that it is in.
pub open spec fn knows_kind(cursor: Cursor) -> bool {
    match cursor {
        Cursor::Outside => true,
        Cursor::Within(block) => block.block_type != BlockType::Unknown,
    }
}

/// Every block that a reader completes has a kind that is known.
pub proof fn lemma_scanned_blocks_have_a_kind(lines: Seq<Seq<char>>, at: int, cursor: Cursor)
    requires
        knows_kind(cursor),
    ensures
        forall|i: int|
            0 <= i < scan(lines, at, cursor).blocks.len() ==> (#[trigger] scan(
                lines,
                at,
                cursor,
            ).blocks[i]).block_type != BlockType::Unknown,
    decreases lines.len() - at,
{
    if at < lines.len() {
        match step(cursor, lines[at]) {
            Step::Move(next) => {
                lemma_scanned_blocks_have_a_kind(lines, at + 1, next);
            },
            Step::Emit(block) => {
                lemma_scanned_blocks_have_a_kind(lines, at + 1, Cursor::Outside);
            },
            Step::Fail(_) => {},
        }
    }
}

/// What a reader makes of `text`, from its first line and outside every
/// block.
pub open spec fn read(text: Seq<char>) -> Scan {
    scan(content_lines(text), 0, Cursor::Outside)
}

/// No block of a text is of unknown kind.
pub proof fn lemma_blocks_of_a_text_have_a_kind(text: Seq<char>)
    ensures
        forall|i: int|
            0 <= i < read(text).blocks.len() ==> (#[trigger] read(text).blocks[i]).block_type
                != BlockType::Unknown,
{
    lemma_scanned_blocks_have_a_kind(content_lines(text), 0, Cursor::Outside);
}

/// The views of `items`, in order.
pub open spec fn results_view(items: Seq<Result<Block, ParseError>>) -> Seq<
    Result<BlockView, ParseErrorView>,
> {
    Seq::new(
        items.len(),
        |i: int|
            match items[i] {
                Ok(block) => Ok(block@),
                Err(error) => Err(error@),
            },
    )
}

/// The view of `error`, where there is one.
spec fn error_view(error: Option<ParseError>) -> Option<ParseErrorView> {
    match error {
        Some(e) => Some(e@),
        None => None,
    }
}

/// The views of `blocks`, in order.
pub open spec fn blocks_view(blocks: Seq<Block>) -> Seq<BlockView> {
    Seq::new(blocks.len(), |i: int| blocks[i]@)
}

/// The texts that `spans` cut out of `chars`.
spec fn spans_text(chars: Seq<char>, spans: Seq<(usize, usize)>) -> Seq<Seq<char>> {
    Seq::new(spans.len(), |i: int| chars.subrange(spans[i].0 as int, spans[i].1 as int))
}

/// The kind of block that `line` opens.
pub fn select_block_type(line: &str) -> (r: Result<BlockType, ParseError>)
    ensures
        match r {
            Ok(block_type) => opened(line@) == Some(block_type),
            Err(error) => opened(line@) is None && error@ == ParseErrorView::UnexpectedLine(line@),
        },
{
    if same_text(line, "info {") {
        Ok(BlockType::Info)
    } else if same_text(line, "programstatus {") {
        Ok(BlockType::Program)
    } else if same_text(line, "hoststatus {") {
        Ok(BlockType::Host)
    } else if same_text(line, "servicestatus {") {
        Ok(BlockType::Service)
    } else if same_text(line, "contactstatus {") {
        Ok(BlockType::Contact)
    } else {
        Err(ParseError::UnexpectedLine(line.to_string()))
    }
}

/// The first place at or after `from` and before `to` that holds `stop`, or
/// `to` where no place does.
fn find(chars: &Vec<char>, from: usize, to: usize, stop: char) -> (r: usize)
    requires
        from <= to <= chars.len(),
    ensures
        from <= r <= to,
        r - from == leading(chars@.subrange(from as int, to as int), is_not(stop)),
{
    let mut i: usize = from;
    while i < to && chars[i] != stop
        invariant
            from <= i <= to <= chars.len(),
            forall|k: int| from <= k < i ==> #[trigger] chars@[k] != stop,
        decreases to - i,
    {
        i += 1;
    }
    proof {
        let s = chars@.subrange(from as int, to as int);
        let p = is_not(stop);
        assert forall|k: int| 0 <= k < i - from implies p(#[trigger] s[k]) by {
            assert(s[k] == chars@[from + k]);
        }
        if i < to {
            assert(s[i - from] == chars@[i as int]);
        }
        lemma_leading(s, p, i - from);
    }
    i
}

/// Where the lines that count stand in `chars`: for each its first place and
/// the place after its last.
fn line_spans(chars: &Vec<char>) -> (r: Vec<(usize, usize)>)
    ensures
        forall|i: int| 0 <= i < r.len() ==> (#[trigger] r[i]).0 < r[i].1 <= chars.len(),
        spans_text(chars@, r@) == content_lines(chars@),
{
    let n = chars.len();
    let mut out: Vec<(usize, usize)> = Vec::new();
    let mut pos: usize = 0;
    let mut done = false;
    proof {
        assert(chars@.skip(0) =~= chars@);
        assert(spans_text(chars@, out@) =~= Seq::empty());
    }
    while !done
        invariant
            pos <= n,
            n == chars.len(),
            forall|i: int| 0 <= i < out.len() ==> (#[trigger] out[i]).0 < out[i].1 <= n,
            content_lines(chars@) == spans_text(chars@, out@) + if done {
                Seq::empty()
            } else {
                content_lines(chars@.skip(pos as int))
            },
        decreases (if done { 0int } else { 1int }), n - pos,
    {
        let ghost rest = chars@.skip(pos as int);
        let ghost before = out@;
        let end = find(chars, pos, n, '\n');
        let (a, b) = trim_bounds(chars, pos, end);
        proof {
            assert(rest =~= chars@.subrange(pos as int, n as int));
            assert(rest.take(end - pos) =~= chars@.subrange(pos as int, end as int));
            if end < n {
                assert(rest.skip(end - pos + 1) =~= chars@.skip(end + 1));
            }
        }
        let ghost line = chars@.subrange(a as int, b as int);
        if a < b && chars[a] != '#' {
            assert(line[0] == chars@[a as int]);
            out.push((a, b));
            assert(spans_text(chars@, out@) =~= spans_text(chars@, before) + seq![line]);
        } else {
            proof {
                if a < b {
                    assert(line[0] == chars@[a as int]);
                }
            }
        }
        if end < n {
            pos = end + 1;
        } else {
            done = true;
        }
    }
    out
}

/// Where a reader stands whose parts are given: within a block where `inside`
/// holds, else outside.
spec fn cursor_of(inside: bool, block_type: BlockType, key_values: Fields) -> Cursor {
    if inside {
        Cursor::Within(BlockView { block_type, key_values })
    } else {
        Cursor::Outside
    }
}

/// The blocks of `text` that are complete before anything is refused, and the
/// error, where something is.
fn read_blocks(text: &str) -> (r: (Vec<Block>, Option<ParseError>))
    ensures
        blocks_view(r.0@) == read(text@).blocks,
        error_view(r.1) == read(text@).error,
{
    let chars = chars_of(text);
    let spans = line_spans(&chars);
    let ghost lines = content_lines(text@);
    let mut out: Vec<Block> = Vec::new();
    let mut inside = false;
    let mut block_type = BlockType::Unknown;
    let mut key_values = KeyValues::new();
    let mut i: usize = 0;
    assert(blocks_view(out@) =~= Seq::empty());
    while i < spans.len()
        invariant
            i <= spans.len(),
            chars@ == text@,
            lines == content_lines(text@),
            spans_text(chars@, spans@) == lines,
            forall|k: int|
                0 <= k < spans.len() ==> (#[trigger] spans[k]).0 < spans[k].1 <= chars.len(),
            !inside ==> key_values@ == Map::<Seq<char>, Seq<char>>::empty(),
            read(text@).blocks == blocks_view(out@) + scan(
                lines,
                i as int,
                cursor_of(inside, block_type, key_values@),
            ).blocks,
            read(text@).error == scan(
                lines,
                i as int,
                cursor_of(inside, block_type, key_values@),
            ).error,
        decreases spans.len() - i,
    {
        let (a, b) = spans[i];
        let ghost line = chars@.subrange(a as int, b as int);
        let ghost before = out@;
        assert(lines[i as int] == line);
        if !inside {
            let opener = text_of(&chars, a, b);
            match select_block_type(opener.as_str()) {
                Ok(kind) => {
                    block_type = kind;
                    inside = true;
                },
                Err(error) => {
                    return (out, Some(error));
                },
            }
        } else if b - a == 1 && chars[a] == '}' {
            proof {
                reveal_strlit("}");
                assert(line =~= "}"@);
            }
            let mut fields = KeyValues::new();
            std::mem::swap(&mut key_values, &mut fields);
            let block = Block { block_type, key_values: fields };
            out.push(block);
            inside = false;
            assert(blocks_view(out@) =~= blocks_view(before) + seq![block@]);
        } else {
            proof {
                reveal_strlit("}");
                if line == "}"@ {
                    assert(line.len() == 1);
                    assert(line[0] == '}');
                }
            }
            let at = find(&chars, a, b, '=');
            if at < b {
                let key = text_of(&chars, a, at);
                let value = text_of(&chars, at + 1, b);
                proof {
                    assert(key@ =~= line.take(at - a));
                    assert(value@ =~= line.skip(at - a + 1));
                }
                key_values.insert(key, value);
            } else {
                return (out, Some(ParseError::InvalidKeyValue(text_of(&chars, a, b))));
            }
        }
        i += 1;
    }
    if inside {
        (out, Some(ParseError::UnexpectedEndOfLine))
    } else {
        (out, None)
    }
}

impl Block {
    /// A block of unknown kind without fields.
    pub fn new() -> (r: Self)
        ensures
            r@ == (BlockView { block_type: BlockType::Unknown, key_values: Map::empty() }),
    {
        Block { block_type: BlockType::Unknown, key_values: KeyValues::new() }
    }

    /// The blocks of `text` in their order. Where the text is refused, the
    /// error comes last, after the blocks that were complete before it.
    pub fn to_blocks(text: &str) -> (r: Vec<Result<Block, ParseError>>)
        ensures
            results_view(r@) == read(text@).items(),
            r.len() == read(text@).items().len(),
    {
        let (blocks, error) = read_blocks(text);
        let ghost all = blocks@;
        let mut out: Vec<Result<Block, ParseError>> = Vec::new();
        for block in it: blocks.into_iter()
            invariant
                it.seq() == all,
                out.len() == it.index(),
                forall|i: int| 0 <= i < out.len() ==> out[i] == Ok::<Block, ParseError>(all[i]),
        {
            out.push(Ok(block));
        }
        match error {
            Some(e) => {
                out.push(Err(e));
            },
            None => {},
        }
        assert(results_view(out@) =~= read(text@).items());
        out
    }

    /// The blocks of `text`, or the reason why it is refused.
    pub fn parse(text: &str) -> (r: Result<Vec<Block>, ParseError>)
        ensures
            match r {
                Ok(blocks) => {
                    &&& read(text@).error is None
                    &&& blocks_view(blocks@) == read(text@).blocks
                    &&& blocks.len() == read(text@).blocks.len()
                },
                Err(error) => read(text@).error == Some(error@),
            },
    {
        let (blocks, error) = read_blocks(text);
        match error {
            Some(e) => Err(e),
            None => Ok(blocks),
        }
    }
}

} // verus!
