use vstd::prelude::*;
use crate::ast::Script;
use crate::policy::Policy;
use crate::semantics::{script_viol, Violation};
use crate::walker::lint_script;
use sourcemap::SourceMap;

verus! {

#[verifier::external_type_specification]
#[verifier::external_body]
pub struct ExSourceMap(SourceMap);

/// A line and column (both from 0) in the linted source text.
#[derive(PartialEq, Eq, Structural, Clone, Copy, Debug)]
pub struct Position {
    pub line: u32,
    pub col: u32,
}

/// What a source-map lookup found: the original line and column of the
/// nearest mapping at or before the position, and its source file.
pub struct MappedToken {
    pub src_line: u32,
    pub src_col: u32,
    pub source: Option<String>,
}

/// A position in the original, pre-transformation source.
pub struct OriginalPosition {
    pub source: Option<String>,
    pub line: u32,
    pub col: u32,
}

/// The final report of a failed pass: the violation, with its position in
/// the linted tree, and its original position where a source map gave one.
pub struct Diagnostic {
    pub violation: Violation,
    pub original: Option<OriginalPosition>,
}

/// Line and column value that a source map uses for "unmapped".
pub const UNMAPPED: u32 = 0xffff_ffff;

/// The number of line feeds among the first `n` bytes.
pub open spec fn newlines_before(s: Seq<u8>, n: int) -> nat
    decreases n,
{
    if n <= 0 {
        0
    } else {
        newlines_before(s, n - 1) + if s[n - 1] == 10u8 {
            1nat
        } else {
            0nat
        }
    }
}

/// The number of UTF-16 code units that byte `b` of UTF-8 text adds to a
/// column: none for a continuation byte, two for the lead byte of a
/// four-byte sequence, one otherwise.
pub open spec fn utf16_width(b: u8) -> nat {
    if 0x80 <= b < 0xc0 {
        0
    } else if b >= 0xf0 {
        2
    } else {
        1
    }
}

/// The column, in UTF-16 code units, just after the first `n` bytes.
pub open spec fn column_at(s: Seq<u8>, n: int) -> nat
    decreases n,
{
    if n <= 0 {
        0
    } else if s[n - 1] == 10u8 {
        0
    } else {
        column_at(s, n - 1) + utf16_width(s[n - 1])
    }
}

/// The line and column of byte offset `offset` of UTF-8 text `s`, the column
/// counted in UTF-16 code units as source maps count it; an offset past the
/// end is taken as the end.
pub open spec fn position_of(s: Seq<u8>, offset: int) -> Position {
    let n = if offset < s.len() {
        offset
    } else {
        s.len() as int
    };
    Position { line: newlines_before(s, n) as u32, col: column_at(s, n) as u32 }
}

proof fn lemma_line_bounds(s: Seq<u8>, n: int)
    requires
        0 <= n <= s.len(),
    ensures
        newlines_before(s, n) <= n,
        column_at(s, n) <= 2 * n,
    decreases n,
{
    if n > 0 {
        lemma_line_bounds(s, n - 1);
    }
}

/// The line and column of a byte offset of the source text.
pub fn locate(src: &Vec<u8>, offset: u32) -> (r: Position)
    ensures
        r == position_of(src@, offset as int),
{
    let end: usize = if (offset as usize) < src.len() {
        offset as usize
    } else {
        src.len()
    };
    let mut line: u32 = 0;
    let mut col: u64 = 0;
    let mut i: usize = 0;
    while i < end
        invariant
            end <= src@.len(),
            end <= offset,
            i <= end,
            line == newlines_before(src@, i as int),
            col == column_at(src@, i as int),
        decreases end - i,
    {
        proof {
            lemma_line_bounds(src@, i as int);
        }
        let b = src[i];
        if b == 10u8 {
            line = line + 1;
            col = 0;
        } else if b >= 0xf0u8 {
            col = col + 2;
        } else if b < 0x80u8 || b >= 0xc0u8 {
            col = col + 1;
        }
        i = i + 1;
    }
    Position { line, col: col as u32 }
}

/// The range flags of a source map's tokens, in token order.
pub uninterp spec fn range_flags(m: SourceMap) -> Seq<bool>;

/// Relies on `sourcemap::SourceMap::get_token` and `Token::is_range`: the
/// range flag of token `idx`, or `None` past the last token. The tokens are
/// held in a `Vec`, so there are at most `usize::MAX` of them.
#[verifier::external_body]
fn range_flag_at(map: &SourceMap, idx: usize) -> (r: Option<bool>)
    ensures
        r is Some <==> idx < range_flags(*map).len(),
        r is Some ==> r->0 == range_flags(*map)[idx as int],
        r is Some ==> range_flags(*map).len() <= usize::MAX,
{
    match map.get_token(idx) {
        Some(t) => Some(t.is_range()),
        None => None,
    }
}

/// Whether any token of the map is a range mapping.
pub open spec fn has_range_mappings(m: SourceMap) -> bool {
    exists|i: int| 0 <= i < range_flags(m).len() && #[trigger] range_flags(m)[i]
}

/// Whether the map holds a range mapping, token by token.
fn holds_range_mapping(map: &SourceMap) -> (r: bool)
    ensures
        r == has_range_mappings(*map),
{
    let mut i: usize = 0;
    loop
        invariant
            i <= range_flags(*map).len(),
            forall|j: int| 0 <= j < i ==> !#[trigger] range_flags(*map)[j],
        decreases range_flags(*map).len() - i,
    {
        match range_flag_at(map, i) {
            Some(flag) => {
                if flag {
                    return true;
                }
                i = i + 1;
            },
            None => {
                return false;
            },
        }
    }
}

/// Relies on `sourcemap::SourceMap::lookup_token` and on the found token's
/// `get_src_line`, `get_src_col` and `get_source`: the mapping at or before
/// the generated line and column, if there is one. What it returns depends on
/// the map's contents, so nothing is stated of it. The lookup subtracts
/// columns only for a range mapping; on a map without one it cannot overflow.
#[verifier::external_body]
fn lookup_token(map: &SourceMap, pos: Position) -> (r: Option<MappedToken>)
    requires
        !has_range_mappings(*map),
{
    match map.lookup_token(pos.line, pos.col) {
        Some(t) => Some(
            MappedToken {
                src_line: t.get_src_line(),
                src_col: t.get_src_col(),
                source: t.get_source().map(|s| s.to_string()),
            },
        ),
        None => None,
    }
}

/// The original position that a lookup found: none where nothing was found
/// or the mapping is marked unmapped.
pub open spec fn original_spec(t: Option<MappedToken>) -> Option<OriginalPosition> {
    match t {
        Some(m) => if m.src_line == UNMAPPED || m.src_col == UNMAPPED {
            None
        } else {
            Some(OriginalPosition { source: m.source, line: m.src_line, col: m.src_col })
        },
        None => None,
    }
}

/// Builds the diagnostic of a violation from what a source-map lookup
/// found for it; an unmapped position keeps the violation untranslated.
pub fn finalize(v: Violation, found: Option<MappedToken>) -> (d: Diagnostic)
    ensures
        d.violation == v,
        d.original == original_spec(found),
{
    let original = match found {
        Some(m) => if m.src_line == UNMAPPED || m.src_col == UNMAPPED {
            None
        } else {
            Some(OriginalPosition { source: m.source, line: m.src_line, col: m.src_col })
        },
        None => None,
    };
    Diagnostic { violation: v, original }
}

/// Lints a script in the global lifetime and reports the first violation in
/// traversal order. Where a source map of the linted text `src` is given, the
/// violation's position is looked up in it; where it is not, where it holds
/// range mappings, or where the lookup finds no mapping, the diagnostic keeps
/// the tree position alone.
pub fn lint(p: &Policy, s: &Script, src: &Vec<u8>, map: Option<&SourceMap>) -> (r: Result<
    (),
    Diagnostic,
>)
    ensures
        r is Ok <==> script_viol(p, *s).len() == 0,
        r is Err ==> r->Err_0.violation == script_viol(p, *s)[0],
        r is Err && map is None ==> r->Err_0.original is None,
        r is Err && map is Some && has_range_mappings(*map->0) ==> r->Err_0.original is None,
{
    match lint_script(p, s) {
        Ok(()) => Ok(()),
        Err(v) => {
            let found = match map {
                Some(m) => if holds_range_mapping(m) {
                    None
                } else {
                    lookup_token(m, locate(src, v.pos))
                },
                None => None,
            };
            Err(finalize(v, found))
        },
    }
}

} // verus!
