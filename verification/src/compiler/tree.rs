//! A whole part of an MML body compiled with the parts it holds, and the
//! parts of a body compiled to its top part.

use vstd::prelude::*;

use crate::compiler::part::{
    add_parts, compile_part, compiled_part, file_view, mime_model, mime_part, models,
    with_children, CompiledPart, CompiledPartView, MimeModel, MimeNode, MmlPart, PartBody,
    PartBodyView,
};
use crate::compiler::body::{Disposition, DispositionView};
use crate::error::MmlError;
use crate::template::render::lookup;

verus! {

/// A compiled part with its own compiled parts, in order (none but for a
/// multipart).
pub struct CompiledTree {
    pub part: CompiledPart,
    pub children: Vec<CompiledTree>,
}

/// The entry for the file name `name`: what reading the file it leads
/// to gave (the file with its name, or the path that could not be read);
/// the first entry for it, none when there is none.
pub open spec fn file_named(
    files: Seq<(String, Result<(Vec<u8>, Option<String>), String>)>,
    name: Seq<char>,
) -> Option<Result<(Vec<u8>, Option<String>), String>>
    decreases files.len(),
{
    if files.len() == 0 {
        None
    } else if files[0].0@ == name {
        Some(files[0].1)
    } else {
        file_named(files.skip(1), name)
    }
}

/// The file of `part`: the one read for its `filename` property.
pub open spec fn file_of(
    part: MmlPart,
    files: Seq<(String, Result<(Vec<u8>, Option<String>), String>)>,
) -> Option<(Seq<u8>, Option<Seq<char>>)> {
    match part {
        MmlPart::Single(props, _) => match lookup(props.deep_view(), "filename"@) {
            Some(f) => match file_named(files, f) {
                Some(Ok(x)) => file_view(Some(x)),
                _ => None,
            },
            None => None,
        },
        _ => None,
    }
}

/// The path named when the file named `name` cannot be read: the path
/// its entry gives, else `name` itself.
pub open spec fn unread_path(
    files: Seq<(String, Result<(Vec<u8>, Option<String>), String>)>,
    name: Seq<char>,
) -> Seq<char> {
    match file_named(files, name) {
        Some(Err(p)) => p@,
        _ => name,
    }
}

/// The file whose name cannot be read first, in the order of the parts:
/// for a multipart, that of its parts; else that of the part itself.
pub open spec fn tree_err(part: MmlPart, files: Seq<(String, Result<(Vec<u8>, Option<String>), String>)>) -> Option<
    Seq<char>,
>
    decreases part,
{
    match part {
        MmlPart::Multi(_, children) => children_err(children@, files),
        _ => match compiled_part(part, file_of(part, files), Seq::empty()) {
            Err(f) => Some(unread_path(files, f)),
            Ok(_) => None,
        },
    }
}

/// The file whose name cannot be read first among the parts `cs`.
pub open spec fn children_err(cs: Seq<MmlPart>, files: Seq<(String, Result<(Vec<u8>, Option<String>), String>)>) -> Option<
    Seq<char>,
>
    decreases cs,
{
    if cs.len() == 0 {
        None
    } else {
        match children_err(cs.drop_last(), files) {
            Some(f) => Some(f),
            None => tree_err(cs.last(), files),
        }
    }
}

/// `t` is what `part` compiles to (see [`compiled_part`]): a multipart
/// with its parts compiled in order, or a part with its file and some
/// guessed content type when it has no `type` property.
pub open spec fn tree_ok(t: CompiledTree, part: MmlPart, files: Seq<(String, Result<(Vec<u8>, Option<String>), String>)>) -> bool
    decreases part,
{
    match part {
        MmlPart::Multi(_, children) => compiled_part(part, None, Seq::empty()) == Ok::<
            CompiledPartView,
            Seq<char>,
        >(t.part@) && children_ok(t.children@, children@, files),
        _ => t.children@.len() == 0 && exists|g: Seq<char>|
            #[trigger] compiled_part(part, file_of(part, files), g) == Ok::<
                CompiledPartView,
                Seq<char>,
            >(t.part@),
    }
}

/// `ts` are what the parts `cs` compile to, in order.
pub open spec fn children_ok(
    ts: Seq<CompiledTree>,
    cs: Seq<MmlPart>,
    files: Seq<(String, Result<(Vec<u8>, Option<String>), String>)>,
) -> bool
    decreases cs,
{
    if cs.len() == 0 {
        ts.len() == 0
    } else {
        &&& ts.len() > 0
        &&& children_ok(ts.drop_last(), cs.drop_last(), files)
        &&& tree_ok(ts.last(), cs.last(), files)
    }
}

/// `r` is the compilation of `part`: the tree when no file is missing,
/// else the error naming the first file that cannot be read.
pub open spec fn tree_result(
    r: Result<CompiledTree, MmlError>,
    part: MmlPart,
    files: Seq<(String, Result<(Vec<u8>, Option<String>), String>)>,
) -> bool {
    match r {
        Ok(t) => tree_err(part, files) is None && tree_ok(t, part, files),
        Err(e) => e matches MmlError::ReadAttachmentError(f) && tree_err(part, files) == Some(f@),
    }
}

/// An error among the first parts is the error of all of them.
proof fn lemma_children_err_prefix(
    cs: Seq<MmlPart>,
    k: int,
    files: Seq<(String, Result<(Vec<u8>, Option<String>), String>)>,
)
    requires
        0 <= k <= cs.len(),
        children_err(cs.take(k), files) is Some,
    ensures
        children_err(cs, files) == children_err(cs.take(k), files),
    decreases cs.len(),
{
    if k == cs.len() {
        assert(cs.take(k) =~= cs);
    } else {
        assert(cs.drop_last().take(k) =~= cs.take(k));
        lemma_children_err_prefix(cs.drop_last(), k, files);
    }
}

/// A copy of the file read for the file name `name`, and the path that
/// could not be read for it (see [`file_named`]).
fn find_file(files: &Vec<(String, Result<(Vec<u8>, Option<String>), String>)>, name: &String) -> (r: (
    Option<(Vec<u8>, Option<String>)>,
    Option<String>,
))
    ensures
        file_view(r.0) == match file_named(files@, name@) {
            Some(Ok(x)) => file_view(Some(x)),
            _ => None,
        },
        r.1.deep_view() == match file_named(files@, name@) {
            Some(Err(p)) => Some(p@),
            _ => None,
        },
{
    let n = files.len();
    let ghost fv = files@;
    assert(fv.skip(0) =~= fv);
    for i in 0..n
        invariant
            n == files@.len(),
            fv == files@,
            file_named(fv, name@) == file_named(fv.skip(i as int), name@),
    {
        assert(fv.skip(i as int)[0] == fv[i as int]);
        if files[i].0 == *name {
            return match &files[i].1 {
                Ok((c, f)) => {
                    let mut copy: Vec<u8> = Vec::new();
                    let m = c.len();
                    for j in 0..m
                        invariant
                            m == c@.len(),
                            copy@ == c@.take(j as int),
                    {
                        copy.push(c[j]);
                        assert(c@.take(j + 1) =~= c@.take(j as int).push(c@[j as int]));
                    }
                    assert(c@.take(m as int) =~= c@);
                    let name_copy = match f {
                        Some(x) => Some(x.clone()),
                        None => None,
                    };
                    (Some((copy, name_copy)), None)
                },
                Err(p) => (None, Some(p.clone())),
            };
        }
        assert(fv.skip(i as int).skip(1) =~= fv.skip(i + 1));
    }
    (None, None)
}

/// Compiles `part` and the parts it holds, in order (see [`tree_ok`]):
/// `files` holds, for each file name a part names, the file read for it
/// (with its name), or the path that could not be read (the name shell
/// expanded and made absolute by the caller). Fails on the first part
/// whose file is missing, naming that path (or the file name, when
/// `files` has no entry for it).
pub fn compile_tree(part: &MmlPart, files: &Vec<(String, Result<(Vec<u8>, Option<String>), String>)>) -> (r: Result<
    CompiledTree,
    MmlError,
>)
    ensures
        tree_result(r, *part, files@),
    decreases part,
{
    match part {
        MmlPart::Multi(props, children) => {
            let head = match compile_part(part, None) {
                Ok(p) => p,
                Err(e) => return Err(e),
            };
            let n = children.len();
            let mut out: Vec<CompiledTree> = Vec::new();
            for i in 0..n
                invariant
                    n == children@.len(),
                    *part == MmlPart::Multi(*props, *children),
                    out@.len() == i,
                    children_ok(out@, children@.take(i as int), files@),
                    children_err(children@.take(i as int), files@) is None,
            {
                assert(children@.take(i + 1).drop_last() =~= children@.take(i as int));
                assert(children@.take(i + 1).last() == children@[i as int]);
                proof {
                    assert(part->Multi_1 == *children);
                    assert(decreases_to!(*part => part->Multi_1));
                    assert(decreases_to!(*children => children@));
                    assert(decreases_to!(children@ => children@[i as int]));
                }
                match compile_tree(&children[i], files) {
                    Ok(t) => {
                        let ghost before = out@;
                        out.push(t);
                        assert(out@.drop_last() =~= before);
                    },
                    Err(e) => {
                        proof {
                            lemma_children_err_prefix(children@, i + 1, files@);
                        }
                        return Err(e);
                    },
                }
            }
            assert(children@.take(n as int) =~= children@);
            Ok(CompiledTree { part: head, children: out })
        },
        MmlPart::Single(props, _) => {
            let (file, unread) = match crate::compiler::body::property(props, "filename") {
                Some(f) => find_file(files, &f),
                None => (None, None),
            };
            match compile_part(part, file) {
                Ok(p) => Ok(CompiledTree { part: p, children: Vec::new() }),
                Err(e) => match unread {
                    Some(path) => Err(MmlError::ReadAttachmentError(path)),
                    None => Err(e),
                },
            }
        },
        MmlPart::PlainText(_) => match compile_part(part, None) {
            Ok(p) => Ok(CompiledTree { part: p, children: Vec::new() }),
            Err(e) => Err(e),
        },
    }
}

/// What a body with no part compiles to: an empty `text/plain` text.
pub open spec fn empty_body() -> CompiledPartView {
    CompiledPartView::Leaf {
        content_type: "text/plain"@,
        name: None,
        body: PartBodyView::Text(Seq::empty()),
        encoding: None,
        disposition: DispositionView::Unset,
    }
}

/// `r` is what a body made of `parts` compiles to: with no part, an empty
/// `text/plain` text; with one part, that part compiled; with several, a
/// `multipart/mixed` holding them compiled in order. The error names the
/// first file that cannot be read.
pub open spec fn parts_result(
    r: Result<CompiledTree, MmlError>,
    parts: Seq<MmlPart>,
    files: Seq<(String, Result<(Vec<u8>, Option<String>), String>)>,
) -> bool {
    if parts.len() == 0 {
        r matches Ok(t) && t.part@ == empty_body() && t.children@.len() == 0
    } else if parts.len() == 1 {
        tree_result(r, parts[0], files)
    } else {
        match r {
            Ok(t) => {
                &&& children_err(parts, files) is None
                &&& t.part@ == CompiledPartView::Multipart("multipart/mixed"@)
                &&& children_ok(t.children@, parts, files)
            },
            Err(e) => e matches MmlError::ReadAttachmentError(f) && children_err(parts, files) == Some(
                f@,
            ),
        }
    }
}

/// Compiles the parts of an MML body into its top part (see
/// [`parts_result`]).
pub fn compile_parts(parts: &Vec<MmlPart>, files: &Vec<(String, Result<(Vec<u8>, Option<String>), String>)>) -> (r:
    Result<CompiledTree, MmlError>)
    ensures
        parts_result(r, parts@, files@),
{
    let n = parts.len();
    if n == 0 {
        let t = CompiledTree {
            part: CompiledPart::Leaf {
                content_type: "text/plain".to_owned(),
                name: None,
                body: PartBody::Text(String::new()),
                encoding: None,
                disposition: Disposition::Unset,
            },
            children: Vec::new(),
        };
        return Ok(t);
    }
    if n == 1 {
        return compile_tree(&parts[0], files);
    }
    let mut out: Vec<CompiledTree> = Vec::new();
    for i in 0..n
        invariant
            n == parts@.len(),
            n >= 2,
            out@.len() == i,
            children_ok(out@, parts@.take(i as int), files@),
            children_err(parts@.take(i as int), files@) is None,
    {
        assert(parts@.take(i + 1).drop_last() =~= parts@.take(i as int));
        assert(parts@.take(i + 1).last() == parts@[i as int]);
        match compile_tree(&parts[i], files) {
            Ok(t) => {
                let ghost before = out@;
                out.push(t);
                assert(out@.drop_last() =~= before);
            },
            Err(e) => {
                proof {
                    lemma_children_err_prefix(parts@, i + 1, files@);
                }
                return Err(e);
            },
        }
    }
    assert(parts@.take(n as int) =~= parts@);
    Ok(
        CompiledTree {
            part: CompiledPart::Multipart { content_type: "multipart/mixed".to_owned() },
            children: out,
        },
    )
}

/// The MIME part of a compiled tree: the MIME part of its top part (see
/// [`mime_model`]) holding those of its parts, in order.
pub open spec fn tree_model(t: CompiledTree) -> MimeModel
    decreases t,
{
    with_children(mime_model(t.part@), tree_models(t.children@))
}

/// The MIME parts of compiled trees, in order.
pub open spec fn tree_models(ts: Seq<CompiledTree>) -> Seq<MimeModel>
    decreases ts,
{
    if ts.len() == 0 {
        Seq::empty()
    } else {
        tree_models(ts.drop_last()).push(tree_model(ts.last()))
    }
}

/// The `mail_builder` MIME part of a compiled tree (see [`tree_model`]).
pub fn mime_tree(t: &CompiledTree) -> (r: MimeNode)
    ensures
        r.model() == tree_model(*t),
    decreases t,
{
    let node = mime_part(&t.part);
    let n = t.children.len();
    let mut kids: Vec<MimeNode> = Vec::new();
    for i in 0..n
        invariant
            n == t.children@.len(),
            models(kids@) == tree_models(t.children@.take(i as int)),
    {
        proof {
            assert(decreases_to!(*t => t.children));
            assert(decreases_to!(t.children => t.children@));
            assert(decreases_to!(t.children@ => t.children@[i as int]));
        }
        let kid = mime_tree(&t.children[i]);
        let ghost before = kids@;
        kids.push(kid);
        assert(t.children@.take(i + 1).drop_last() =~= t.children@.take(i as int));
        assert(t.children@.take(i + 1).last() == t.children@[i as int]);
        assert(models(kids@) =~= models(before).push(kid.model()));
    }
    assert(t.children@.take(n as int) =~= t.children@);
    add_parts(node, kids)
}

} // verus!
