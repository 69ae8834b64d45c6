use vstd::prelude::*;

use crate::text::{
    contains, has_prefix, lines_of, occurs_in, replace, replace_all, split_lines, starts_with,
    trim_str, trimmed,
};

verus! {

/// How a block of message text is displayed.
#[derive(Clone, Copy, Debug, PartialEq, Eq, Structural)]
pub enum BlockKind {
    /// A line that opened with `# `.
    Heading,
    /// A line that opened with `## `.
    Subheading,
    /// A line that held `**`, shown bold with the markers removed.
    Strong,
    /// Any other line outside a fenced code block.
    Plain,
    /// The trimmed contents of a code block fenced by lines starting with three
    /// backticks.
    Code,
}

/// One displayable piece of a message.
#[derive(Debug)]
pub struct TextBlock {
    pub kind: BlockKind,
    pub text: String,
}

impl View for TextBlock {
    type V = (BlockKind, Seq<char>);

    open spec fn view(&self) -> (BlockKind, Seq<char>) {
        (self.kind, self.text@)
    }
}

pub open spec fn block_views(bs: Seq<TextBlock>) -> Seq<(BlockKind, Seq<char>)> {
    bs.map_values(|b: TextBlock| b@)
}

/// The block that a line outside a code block becomes.
pub open spec fn line_block(line: Seq<char>) -> (BlockKind, Seq<char>) {
    if has_prefix(line, "# "@) {
        (BlockKind::Heading, line.subrange(2, line.len() as int))
    } else if has_prefix(line, "## "@) {
        (BlockKind::Subheading, line.subrange(3, line.len() as int))
    } else if occurs_in(line, "**"@) {
        (BlockKind::Strong, replace_all(line, "**"@, ""@))
    } else {
        (BlockKind::Plain, line)
    }
}

/// Where a scan of lines stands: inside a code block or not, the code
/// gathered so far, and the blocks finished so far.
pub struct ScanState {
    pub in_code: bool,
    pub code: Seq<char>,
    pub blocks: Seq<(BlockKind, Seq<char>)>,
}

/// Whether a line opens or closes a fenced code block.
pub open spec fn is_fence(line: Seq<char>) -> bool {
    has_prefix(trimmed(line), "```"@)
}

pub open spec fn scan_step(st: ScanState, line: Seq<char>) -> ScanState {
    if is_fence(line) {
        if st.in_code {
            ScanState {
                in_code: false,
                code: Seq::empty(),
                blocks: st.blocks.push((BlockKind::Code, trimmed(st.code))),
            }
        } else {
            ScanState { in_code: true, ..st }
        }
    } else if st.in_code {
        ScanState { code: st.code + line + "\n"@, ..st }
    } else {
        ScanState { blocks: st.blocks.push(line_block(line)), ..st }
    }
}

pub open spec fn scan_lines(lines: Seq<Seq<char>>) -> ScanState
    decreases lines.len(),
{
    if lines.len() == 0 {
        ScanState { in_code: false, code: Seq::empty(), blocks: Seq::empty() }
    } else {
        scan_step(scan_lines(lines.drop_last()), lines.last())
    }
}

/// The blocks of a whole message: a code block left open at the end is kept
/// when it gathered anything.
pub open spec fn blocks_of(text: Seq<char>) -> Seq<(BlockKind, Seq<char>)> {
    let st = scan_lines(lines_of(text));
    if st.in_code && st.code.len() > 0 {
        st.blocks.push((BlockKind::Code, trimmed(st.code)))
    } else {
        st.blocks
    }
}

/// The block that one line outside a code block becomes.
pub fn classify_line_block(line: &str) -> (r: TextBlock)
    ensures
        r@ == line_block(line@),
{
    if starts_with(line, "# ") {
        let n = line.unicode_len();
        proof {
            reveal_strlit("# ");
        }
        TextBlock { kind: BlockKind::Heading, text: String::from_str(line.substring_char(2, n)) }
    } else if starts_with(line, "## ") {
        let n = line.unicode_len();
        proof {
            reveal_strlit("## ");
        }
        TextBlock { kind: BlockKind::Subheading, text: String::from_str(line.substring_char(3, n)) }
    } else if contains(line, "**") {
        proof {
            reveal_strlit("**");
        }
        TextBlock { kind: BlockKind::Strong, text: replace(line, "**", "") }
    } else {
        TextBlock { kind: BlockKind::Plain, text: String::from_str(line) }
    }
}

/// Splits message text into displayable blocks: fenced code blocks, headings,
/// bold lines and plain lines, in order.
pub fn split_blocks(text: &str) -> (r: Vec<TextBlock>)
    ensures
        block_views(r@) == blocks_of(text@),
{
    let lines = split_lines(text);
    let ghost ls = lines@.map_values(|l: &str| l@);
    let mut out: Vec<TextBlock> = Vec::new();
    let mut in_code = false;
    let mut code = String::new();
    let n = lines.len();
    let mut i: usize = 0;
    assert(block_views(out@) =~= Seq::<(BlockKind, Seq<char>)>::empty());
    assert(ls.subrange(0, 0) =~= Seq::<Seq<char>>::empty());
    while i < n
        invariant
            n == lines@.len(),
            ls == lines@.map_values(|l: &str| l@),
            ls == lines_of(text@),
            i <= n,
            scan_lines(ls.subrange(0, i as int)) == (ScanState {
                in_code,
                code: code@,
                blocks: block_views(out@),
            }),
        decreases n - i,
    {
        let line: &str = lines[i];
        let ghost prefix = ls.subrange(0, i as int);
        assert(ls.subrange(0, i + 1).drop_last() == prefix);
        assert(ls.subrange(0, i + 1).last() == line@);
        let ghost before = block_views(out@);
        if starts_with(trim_str(line), "```") {
            if in_code {
                let block = TextBlock {
                    kind: BlockKind::Code,
                    text: String::from_str(trim_str(code.as_str())),
                };
                out.push(block);
                assert(block_views(out@) =~= before.push((BlockKind::Code, trimmed(code@))));
                in_code = false;
                code = String::new();
            } else {
                in_code = true;
            }
        } else if in_code {
            code.append(line);
            code.append("\n");
        } else {
            let block = classify_line_block(line);
            out.push(block);
            assert(block_views(out@) =~= before.push(line_block(line@)));
        }
        i = i + 1;
    }
    assert(ls.subrange(0, n as int) == ls);
    if in_code && code.as_str().unicode_len() > 0 {
        let ghost before = block_views(out@);
        out.push(TextBlock { kind: BlockKind::Code, text: String::from_str(trim_str(code.as_str())) });
        assert(block_views(out@) =~= before.push((BlockKind::Code, trimmed(code@))));
    }
    out
}

} // verus!
