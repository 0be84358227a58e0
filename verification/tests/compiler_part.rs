use mml::compiler::body::Disposition;
use mml::compiler::part::{
    add_parts, compile_part, compile_part_with, guess_input, mime_part, CompiledPart, MmlPart, PartBody,
};
use mml::error::MmlError;

fn props(entries: &[(&str, &str)]) -> Vec<(String, String)> {
    entries.iter().map(|(k, v)| (k.to_string(), v.to_string())).collect()
}

fn written(part: &CompiledPart) -> String {
    let mut out = Vec::new();
    mime_part(part).into_part().write_part(&mut out).unwrap();
    String::from_utf8_lossy(&out).into_owned()
}

#[test]
fn multipart_type() {
    let part = MmlPart::Multi(props(&[("type", "alternative")]), vec![]);
    assert_eq!(
        compile_part(&part, None),
        Ok(CompiledPart::Multipart { content_type: "multipart/alternative".into() })
    );
    let part = MmlPart::Multi(props(&[]), vec![MmlPart::PlainText("x".into())]);
    assert_eq!(
        compile_part(&part, None),
        Ok(CompiledPart::Multipart { content_type: "multipart/mixed".into() })
    );
}

#[test]
fn plain_text_is_unescaped() {
    let part = MmlPart::PlainText("<#!part>x<#!/part>".into());
    assert_eq!(
        compile_part(&part, None),
        Ok(CompiledPart::Leaf {
            content_type: "text/plain".into(),
            name: None,
            body: PartBody::Text("<#part>x<#/part>".into()),
            encoding: None,
            disposition: Disposition::Unset,
        })
    );
}

#[test]
fn part_properties() {
    let part = MmlPart::Single(
        props(&[("type", "text/html"), ("name", "page"), ("encoding", "base64"), ("disposition", "inline")]),
        "<p>Hi</p>".into(),
    );
    let compiled = compile_part(&part, None).unwrap();
    assert_eq!(
        compiled,
        CompiledPart::Leaf {
            content_type: "text/html".into(),
            name: Some("page".into()),
            body: PartBody::Text("<p>Hi</p>".into()),
            encoding: Some("base64".into()),
            disposition: Disposition::Inline,
        }
    );
    let text = written(&compiled);
    assert!(text.contains("text/html"));
    assert!(text.contains("page"));
    assert!(text.contains("base64"));
    assert!(text.contains("inline"));
}

#[test]
fn part_from_a_file() {
    let part = MmlPart::Single(props(&[("filename", "~/notes.txt"), ("type", "text/plain")]), String::new());
    let compiled = compile_part(&part, Some((b"abc".to_vec(), Some("notes.txt".into())))).unwrap();
    assert_eq!(
        compiled,
        CompiledPart::Leaf {
            content_type: "text/plain".into(),
            name: None,
            body: PartBody::Binary(b"abc".to_vec()),
            encoding: None,
            disposition: Disposition::Attachment("notes.txt".into()),
        }
    );
    let text = written(&compiled);
    assert!(text.contains("attachment"));
    assert!(text.contains("notes.txt"));
}

#[test]
fn unreadable_file_is_refused() {
    let part = MmlPart::Single(props(&[("filename", "/nowhere")]), String::new());
    assert_eq!(compile_part(&part, None), Err(MmlError::ReadAttachmentError("/nowhere".into())));
}

#[test]
fn content_type_is_guessed_without_type() {
    let part = MmlPart::Single(props(&[]), "Hello".into());
    match compile_part(&part, None).unwrap() {
        CompiledPart::Leaf { content_type, body, disposition, .. } => {
            assert!(!content_type.is_empty());
            assert_eq!(body, PartBody::Text("Hello".into()));
            assert_eq!(disposition, Disposition::Unset);
        },
        other => panic!("unexpected {other:?}"),
    }
}

#[test]
fn multipart_holds_its_parts() {
    let multi = mime_part(&CompiledPart::Multipart { content_type: "multipart/mixed".into() });
    let child = mime_part(&compile_part(&MmlPart::PlainText("first".into()), None).unwrap());
    let mut out = Vec::new();
    add_parts(multi, vec![child]).into_part().write_part(&mut out).unwrap();
    let text = String::from_utf8_lossy(&out).into_owned();
    assert!(text.contains("multipart/mixed"));
    assert!(text.contains("first"));
}

#[test]
fn content_type_guess_reads_the_right_bytes() {
    let file = Some((vec![0u8, 1, 2], Some("f.bin".to_string())));
    let from_file = MmlPart::Single(props(&[("filename", "f.bin")]), "ignored".into());
    assert_eq!(guess_input(&from_file, &file), vec![0u8, 1, 2]);
    let inline = MmlPart::Single(props(&[]), "héllo".into());
    assert_eq!(guess_input(&inline, &file), "héllo".as_bytes().to_vec());
    assert_eq!(guess_input(&MmlPart::PlainText("x".into()), &None), Vec::<u8>::new());

    let compiled = compile_part_with(&from_file, file, "image/png".into()).unwrap();
    assert_eq!(
        compiled,
        CompiledPart::Leaf {
            content_type: "image/png".into(),
            name: None,
            body: PartBody::Binary(vec![0, 1, 2]),
            encoding: None,
            disposition: Disposition::Attachment("f.bin".into()),
        }
    );
    let typed = MmlPart::Single(props(&[("type", "text/x")]), "b".into());
    match compile_part_with(&typed, None, "ignored/guess".into()).unwrap() {
        CompiledPart::Leaf { content_type, .. } => assert_eq!(content_type, "text/x"),
        other => panic!("unexpected {other:?}"),
    }
}
