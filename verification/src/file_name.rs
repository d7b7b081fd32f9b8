//! A file that defines a single class-like (or, optionally, a single
//! function) should be named after it.
use vstd::prelude::*;

use crate::config::FileNameConfig;
use crate::edit::Span;
use crate::text::{
    bytes_end_with, bytes_equal, bytes_subrange, is_suffix, last_byte_position, lemma_rposition_in, rposition,
};

verus! {

/// The bytes of `.php`.
pub open spec fn php_extension() -> Seq<u8> {
    seq![0x2eu8, 0x70u8, 0x68u8, 0x70u8]
}

/// What follows the last byte `b` of `s`, or all of `s` when it has none.
pub open spec fn after_last(s: Seq<u8>, b: u8) -> Seq<u8> {
    match rposition(s, b) {
        Some(k) => s.skip(k + 1),
        None => s,
    }
}

/// The stem of a file name: its base name (what follows the last `/`)
/// without its `.php` extension or, failing that, without what follows its
/// last `.`.
pub open spec fn file_stem(name: Seq<u8>) -> Seq<u8> {
    let base = after_last(name, 0x2fu8);
    if is_suffix(php_extension(), base) {
        base.take(base.len() - 4)
    } else {
        match rposition(base, 0x2eu8) {
            Some(k) => base.take(k),
            None => base,
        }
    }
}

/// The stem of a file name.
pub fn file_name_stem(name: &[u8]) -> (stem: Vec<u8>)
    ensures
        stem@ == file_stem(name@),
{
    proof {
        lemma_rposition_in(name@, 0x2fu8, name@.len() as int);
    }
    let slash = last_byte_position(0x2fu8, name);
    assert(name@.len() == name.len());
    let base = match slash {
        Some(k) => {
            assert(rposition(name@, 0x2fu8) == Some(k as int));
            bytes_subrange(name, k + 1, name.len())
        },
        None => bytes_subrange(name, 0, name.len()),
    };
    assert(base@ =~= after_last(name@, 0x2fu8));
    let php: [u8; 4] = [0x2eu8, 0x70u8, 0x68u8, 0x70u8];
    assert(php@ =~= php_extension());
    if bytes_end_with(base.as_slice(), &php) {
        let stem = bytes_subrange(base.as_slice(), 0, base.len() - 4);
        assert(stem@ =~= file_stem(name@));
        return stem;
    }
    proof {
        lemma_rposition_in(base@, 0x2eu8, base@.len() as int);
    }
    let dot = last_byte_position(0x2eu8, base.as_slice());
    assert(base@.len() == base.len());
    match dot {
        Some(k) => {
            assert(rposition(base@, 0x2eu8) == Some(k as int));
            let stem = bytes_subrange(base.as_slice(), 0, k);
            assert(stem@ =~= file_stem(name@));
            stem
        },
        None => {
            assert(base@ =~= file_stem(name@));
            base
        },
    }
}

/// The kinds of class-like definitions.
#[derive(Clone, Copy, PartialEq, Eq, Debug)]
pub enum ClassLikeKind {
    Class,
    Interface,
    Trait,
    Enum,
}

/// The name of a class-like kind, as the report writes it.
pub open spec fn spec_class_like_kind_name(k: ClassLikeKind) -> Seq<char> {
    match k {
        ClassLikeKind::Class => "Class"@,
        ClassLikeKind::Interface => "Interface"@,
        ClassLikeKind::Trait => "Trait"@,
        ClassLikeKind::Enum => "Enum"@,
    }
}

/// The name of a class-like kind, as the report writes it.
pub fn class_like_kind_name(k: ClassLikeKind) -> (s: &'static str)
    ensures
        s@ == spec_class_like_kind_name(k),
{
    match k {
        ClassLikeKind::Class => "Class",
        ClassLikeKind::Interface => "Interface",
        ClassLikeKind::Trait => "Trait",
        ClassLikeKind::Enum => "Enum",
    }
}

/// A class, interface, trait or enum defined in the file: its kind, its name
/// and the span of its name.
#[derive(PartialEq, Eq, Debug)]
pub struct ClassLikeDefinition {
    pub kind: ClassLikeKind,
    pub name: Vec<u8>,
    pub span: Span,
}

/// A function defined in the file: its name and the span of its name.
#[derive(PartialEq, Eq, Debug)]
pub struct FunctionDefinition {
    pub name: Vec<u8>,
    pub span: Span,
}

/// A definition that does not match the file name, and the file's stem.
#[derive(PartialEq, Eq, Debug)]
pub enum FileNameMismatch {
    /// `kind` is `None` for a function.
    Definition { kind: Option<ClassLikeKind>, name: Vec<u8>, span: Span, stem: Vec<u8> },
}

/// The plain values of a mismatch.
pub open spec fn mismatch_view(m: FileNameMismatch) -> (Option<ClassLikeKind>, Seq<u8>, Span, Seq<u8>) {
    match m {
        FileNameMismatch::Definition { kind, name, span, stem } => (kind, name@, span, stem@),
    }
}

/// What the rule reports of a file, given the class-likes and functions it
/// defines (at any depth, in source order): a single class-like must be
/// named like the file's stem; with `check_functions`, so must a single
/// function in a file without class-likes.
pub open spec fn spec_file_name_mismatch(
    check_functions: bool,
    file_name: Seq<u8>,
    class_likes: Seq<ClassLikeDefinition>,
    functions: Seq<FunctionDefinition>,
) -> Option<(Option<ClassLikeKind>, Seq<u8>, Span, Seq<u8>)> {
    let stem = file_stem(file_name);
    if class_likes.len() == 1 {
        let c = class_likes[0];
        if c.name@ != stem {
            Some((Some(c.kind), c.name@, c.span, stem))
        } else {
            None
        }
    } else if check_functions && class_likes.len() == 0 && functions.len() == 1 {
        let f = functions[0];
        if f.name@ != stem {
            Some((None, f.name@, f.span, stem))
        } else {
            None
        }
    } else {
        None
    }
}

/// Checks a file's name against its definitions.
pub fn check_file_name(
    cfg: &FileNameConfig,
    file_name: &[u8],
    class_likes: &Vec<ClassLikeDefinition>,
    functions: &Vec<FunctionDefinition>,
) -> (r: Option<FileNameMismatch>)
    ensures
        match r {
            Some(m) => spec_file_name_mismatch(cfg.check_functions, file_name@, class_likes@, functions@) == Some(
                mismatch_view(m),
            ),
            None => spec_file_name_mismatch(cfg.check_functions, file_name@, class_likes@, functions@) is None,
        },
{
    let stem = file_name_stem(file_name);
    if class_likes.len() == 1 {
        let c = &class_likes[0];
        if bytes_equal(c.name.as_slice(), stem.as_slice()) {
            return None;
        }
        let name = bytes_subrange(c.name.as_slice(), 0, c.name.len());
        assert(name@ =~= c.name@);
        return Some(FileNameMismatch::Definition { kind: Some(c.kind), name, span: c.span, stem });
    }
    if cfg.check_functions && class_likes.len() == 0 && functions.len() == 1 {
        let f = &functions[0];
        if bytes_equal(f.name.as_slice(), stem.as_slice()) {
            return None;
        }
        let name = bytes_subrange(f.name.as_slice(), 0, f.name.len());
        assert(name@ =~= f.name@);
        return Some(FileNameMismatch::Definition { kind: None, name, span: f.span, stem });
    }
    None
}

/// A file named after its definition passes: the stem of a path ending in
/// `/N.php`, or of `N.php` alone, is `N`, for a name `N` without `/`.
pub proof fn law_file_named_after_definition(dir: Seq<u8>, name: Seq<u8>)
    requires
        forall|k: int| 0 <= k < name.len() ==> #[trigger] name[k] != 0x2fu8,
    ensures
        file_stem(name + php_extension()) == name,
        file_stem(dir + seq![0x2fu8] + name + php_extension()) == name,
{
    let file = name + php_extension();
    lemma_rposition_in(file, 0x2fu8, file.len() as int);
    assert forall|k: int| 0 <= k < file.len() implies #[trigger] file[k] != 0x2fu8 by {
        if k >= name.len() {
            assert(file[k] == php_extension()[k - name.len()]);
        }
    }
    assert(after_last(file, 0x2fu8) == file);
    assert(file.subrange(file.len() - 4, file.len() as int) =~= php_extension());
    assert(file.take(file.len() - 4) =~= name);
    let path = dir + seq![0x2fu8] + name + php_extension();
    lemma_rposition_in(path, 0x2fu8, path.len() as int);
    let slash = dir.len() as int;
    assert(path[slash] == 0x2fu8);
    assert forall|m: int| slash < m < path.len() implies #[trigger] path[m] != 0x2fu8 by {
        assert(path[m] == file[m - slash - 1]);
    }
    assert(rposition(path, 0x2fu8) == Some(slash));
    assert(path.skip(slash + 1) =~= file);
}

} // verus!
