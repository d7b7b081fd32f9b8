//! Control structures whose body is a single statement rather than a block
//! `{ ... }`.
use vstd::prelude::*;

use crate::edit::Span;

verus! {

/// What kind of statement a body is.
#[derive(Clone, Copy, PartialEq, Eq, Debug)]
pub enum BodyKind {
    Block,
    If,
    Other,
}

/// A keyword and the statement that forms its body.
#[derive(Clone, Copy, PartialEq, Eq, Debug)]
pub struct KeywordBody {
    pub keyword: Span,
    pub body_kind: BodyKind,
    pub body: Span,
}

/// A control structure, with the statement bodies the rule reads. The
/// colon-delimited forms (`if (...): ... endif;` and the like) have no
/// statement body and are `Other`.
#[derive(PartialEq, Eq, Debug)]
pub enum ControlStructure {
    If { branch: KeywordBody, else_ifs: Vec<KeywordBody>, else_branch: Option<KeywordBody> },
    For { body: KeywordBody },
    Foreach { body: KeywordBody },
    While { body: KeywordBody },
    DoWhile { body: KeywordBody },
    Other,
}

/// Which construct lacks a block body.
#[derive(Clone, Copy, PartialEq, Eq, Debug)]
pub enum ConstructKind {
    If,
    ElseIf,
    Else,
    For,
    Foreach,
    While,
    DoWhile,
}

/// A body that is not wrapped in a block: the construct, its keyword and
/// the statement.
#[derive(Clone, Copy, PartialEq, Eq, Debug)]
pub struct MissingBlock {
    pub construct: ConstructKind,
    pub keyword: Span,
    pub body: Span,
}

/// The name of a construct, as the report writes it.
pub open spec fn spec_construct_name(k: ConstructKind) -> Seq<char> {
    match k {
        ConstructKind::If => "if"@,
        ConstructKind::ElseIf => "else if"@,
        ConstructKind::Else => "else"@,
        ConstructKind::For => "for"@,
        ConstructKind::Foreach => "foreach"@,
        ConstructKind::While => "while"@,
        ConstructKind::DoWhile => "do-while"@,
    }
}

/// The name of a construct, as the report writes it.
pub fn construct_name(k: ConstructKind) -> (s: &'static str)
    ensures
        s@ == spec_construct_name(k),
{
    match k {
        ConstructKind::If => "if",
        ConstructKind::ElseIf => "else if",
        ConstructKind::Else => "else",
        ConstructKind::For => "for",
        ConstructKind::Foreach => "foreach",
        ConstructKind::While => "while",
        ConstructKind::DoWhile => "do-while",
    }
}

/// The report for one body, if it is not a block.
pub open spec fn missing_if_not_block(k: ConstructKind, b: KeywordBody) -> Seq<MissingBlock> {
    if b.body_kind is Block {
        Seq::empty()
    } else {
        seq![MissingBlock { construct: k, keyword: b.keyword, body: b.body }]
    }
}

/// The reports for the `elseif` clauses, in order.
pub open spec fn missing_in_else_ifs(cs: Seq<KeywordBody>) -> Seq<MissingBlock>
    decreases cs.len(),
{
    if cs.len() == 0 {
        Seq::empty()
    } else {
        missing_in_else_ifs(cs.drop_last()) + missing_if_not_block(ConstructKind::ElseIf, cs.last())
    }
}

/// The bodies of a control structure that are not blocks, in source order.
/// An `else` followed directly by an `if` (an `else if`) is accepted.
pub open spec fn spec_missing_blocks(c: ControlStructure) -> Seq<MissingBlock> {
    match c {
        ControlStructure::If { branch, else_ifs, else_branch } => {
            missing_if_not_block(ConstructKind::If, branch) + missing_in_else_ifs(else_ifs@) + match else_branch {
                Some(e) => if e.body_kind is If {
                    Seq::empty()
                } else {
                    missing_if_not_block(ConstructKind::Else, e)
                },
                None => Seq::empty(),
            }
        },
        ControlStructure::For { body } => missing_if_not_block(ConstructKind::For, body),
        ControlStructure::Foreach { body } => missing_if_not_block(ConstructKind::Foreach, body),
        ControlStructure::While { body } => missing_if_not_block(ConstructKind::While, body),
        ControlStructure::DoWhile { body } => missing_if_not_block(ConstructKind::DoWhile, body),
        ControlStructure::Other => Seq::empty(),
    }
}

fn push_if_not_block(out: &mut Vec<MissingBlock>, k: ConstructKind, b: KeywordBody)
    ensures
        final(out)@ == old(out)@ + missing_if_not_block(k, b),
{
    if !matches!(b.body_kind, BodyKind::Block) {
        out.push(MissingBlock { construct: k, keyword: b.keyword, body: b.body });
    } else {
        assert(out@ =~= old(out)@ + missing_if_not_block(k, b));
    }
}

/// The bodies of a control structure that are not blocks, in source order.
pub fn check_block_statement(c: &ControlStructure) -> (out: Vec<MissingBlock>)
    ensures
        out@ == spec_missing_blocks(*c),
{
    let mut out: Vec<MissingBlock> = Vec::new();
    match c {
        ControlStructure::If { branch, else_ifs, else_branch } => {
            push_if_not_block(&mut out, ConstructKind::If, *branch);
            let ghost head = out@;
            let mut k: usize = 0;
            while k < else_ifs.len()
                invariant
                    k <= else_ifs.len(),
                    out@ == head + missing_in_else_ifs(else_ifs@.take(k as int)),
                decreases else_ifs.len() - k,
            {
                push_if_not_block(&mut out, ConstructKind::ElseIf, else_ifs[k]);
                assert(else_ifs@.take(k + 1).drop_last() =~= else_ifs@.take(k as int));
                k += 1;
            }
            assert(else_ifs@.take(k as int) =~= else_ifs@);
            if let Some(e) = else_branch {
                if !matches!(e.body_kind, BodyKind::If) {
                    push_if_not_block(&mut out, ConstructKind::Else, *e);
                }
            }
            assert(out@ =~= spec_missing_blocks(*c));
        },
        ControlStructure::For { body } => push_if_not_block(&mut out, ConstructKind::For, *body),
        ControlStructure::Foreach { body } => push_if_not_block(&mut out, ConstructKind::Foreach, *body),
        ControlStructure::While { body } => push_if_not_block(&mut out, ConstructKind::While, *body),
        ControlStructure::DoWhile { body } => push_if_not_block(&mut out, ConstructKind::DoWhile, *body),
        ControlStructure::Other => {},
    }
    assert(out@ =~= spec_missing_blocks(*c));
    out
}

} // verus!
