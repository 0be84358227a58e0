use mml::compiler::body::Disposition;
use mml::compiler::part::{CompiledPart, MmlPart, PartBody};
use mml::compiler::tree::{compile_parts, compile_tree, mime_tree};
use mml::error::MmlError;

fn props(entries: &[(&str, &str)]) -> Vec<(String, String)> {
    entries.iter().map(|(k, v)| (k.to_string(), v.to_string())).collect()
}

fn text(body: &str) -> MmlPart {
    MmlPart::Single(props(&[("type", "text/plain")]), body.into())
}

type Files = Vec<(String, Result<(Vec<u8>, Option<String>), String>)>;

#[test]
fn no_part_gives_an_empty_text() {
    let t = compile_parts(&vec![], &Files::new()).unwrap();
    assert_eq!(
        t.part,
        CompiledPart::Leaf {
            content_type: "text/plain".into(),
            name: None,
            body: PartBody::Text(String::new()),
            encoding: None,
            disposition: Disposition::Unset,
        }
    );
    assert!(t.children.is_empty());
}

#[test]
fn one_part_is_the_body() {
    let t = compile_parts(&vec![text("hi")], &Files::new()).unwrap();
    assert_eq!(t.part, compile_tree(&text("hi"), &Files::new()).unwrap().part);
    assert!(t.children.is_empty());
}

#[test]
fn several_parts_are_mixed() {
    let t = compile_parts(&vec![text("a"), MmlPart::PlainText("b".into())], &Files::new()).unwrap();
    assert_eq!(t.part, CompiledPart::Multipart { content_type: "multipart/mixed".into() });
    assert_eq!(t.children.len(), 2);
    assert_eq!(
        t.children[1].part,
        CompiledPart::Leaf {
            content_type: "text/plain".into(),
            name: None,
            body: PartBody::Text("b".into()),
            encoding: None,
            disposition: Disposition::Unset,
        }
    );
}

#[test]
fn nested_multiparts_are_compiled() {
    let inner = MmlPart::Multi(props(&[("type", "alternative")]), vec![text("plain"), text("other")]);
    let outer = MmlPart::Multi(
        props(&[("type", "related")]),
        vec![inner, MmlPart::Single(props(&[("filename", "a.bin"), ("type", "application/x")]), String::new())],
    );
    let files: Files = vec![("a.bin".into(), Ok((vec![1, 2, 3], Some("a.bin".into()))))];
    let t = compile_tree(&outer, &files).unwrap();
    assert_eq!(t.part, CompiledPart::Multipart { content_type: "multipart/related".into() });
    assert_eq!(t.children[0].part, CompiledPart::Multipart { content_type: "multipart/alternative".into() });
    assert_eq!(t.children[0].children.len(), 2);
    assert_eq!(
        t.children[1].part,
        CompiledPart::Leaf {
            content_type: "application/x".into(),
            name: None,
            body: PartBody::Binary(vec![1, 2, 3]),
            encoding: None,
            disposition: Disposition::Attachment("a.bin".into()),
        }
    );
    let mut out = Vec::new();
    mime_tree(&t).into_part().write_part(&mut out).unwrap();
    let written = String::from_utf8_lossy(&out).into_owned();
    assert!(written.contains("multipart/related"));
    assert!(written.contains("multipart/alternative"));
    assert!(written.contains("plain"));
    assert!(written.contains("a.bin"));
}

#[test]
fn first_missing_file_fails_the_tree() {
    let outer = MmlPart::Multi(
        props(&[]),
        vec![
            text("ok"),
            MmlPart::Multi(props(&[]), vec![MmlPart::Single(props(&[("filename", "x")]), String::new())]),
            MmlPart::Single(props(&[("filename", "y")]), String::new()),
        ],
    );
    let files: Files = vec![("x".into(), Err("/home/me/x".into()))];
    assert_eq!(compile_tree(&outer, &files).err(), Some(MmlError::ReadAttachmentError("/home/me/x".into())));
    assert_eq!(
        compile_parts(&vec![text("ok"), MmlPart::Single(props(&[("filename", "y")]), String::new())], &files).err(),
        Some(MmlError::ReadAttachmentError("y".into()))
    );
}
