use mml::compiler::body::{
    multipart_content_type, part_disposition, property, transfer_encoding, Disposition,
    MmlBodyCompiler,
};

fn props(entries: &[(&str, &str)]) -> Vec<(String, String)> {
    entries.iter().map(|(k, v)| (k.to_string(), v.to_string())).collect()
}

#[test]
fn new_compiler() {
    assert_eq!(MmlBodyCompiler::new(), MmlBodyCompiler::default());
}

#[test]
fn unescape_markers() {
    assert_eq!(
        MmlBodyCompiler::unescape_mml_markup("<#!part type=text/plain>x<#!/part>"),
        "<#part type=text/plain>x<#/part>"
    );
    assert_eq!(
        MmlBodyCompiler::unescape_mml_markup("<#!multipart><#!/multipart>"),
        "<#multipart><#/multipart>"
    );
}

#[test]
fn unescape_leaves_plain_text() {
    let text = "Hello <#part> and <# !part>, world!";
    assert_eq!(MmlBodyCompiler::unescape_mml_markup(text), text);
    assert_eq!(MmlBodyCompiler::unescape_mml_markup(""), "");
}

#[test]
fn first_property_wins() {
    let p = props(&[("type", "related"), ("name", "a"), ("type", "mixed")]);
    assert_eq!(property(&p, "type").as_deref(), Some("related"));
    assert_eq!(property(&p, "filename"), None);
}

#[test]
fn multipart_types() {
    assert_eq!(multipart_content_type(&props(&[])), "multipart/mixed");
    assert_eq!(multipart_content_type(&props(&[("type", "mixed")])), "multipart/mixed");
    assert_eq!(multipart_content_type(&props(&[("type", "alternative")])), "multipart/alternative");
    assert_eq!(multipart_content_type(&props(&[("type", "related")])), "multipart/related");
    assert_eq!(multipart_content_type(&props(&[("type", "unknown")])), "multipart/mixed");
}

#[test]
fn transfer_encodings() {
    for e in ["7bit", "8bit", "quoted-printable", "base64"] {
        assert_eq!(transfer_encoding(&props(&[("encoding", e)])), Some(e));
    }
    assert_eq!(transfer_encoding(&props(&[("encoding", "binary")])), None);
    assert_eq!(transfer_encoding(&props(&[])), None);
}

#[test]
fn dispositions() {
    assert_eq!(part_disposition(&props(&[("disposition", "inline")]), None), Disposition::Inline);
    assert_eq!(
        part_disposition(&props(&[("disposition", "inline"), ("filename", "~/a.txt")]), Some("a.txt".into())),
        Disposition::Inline
    );
    assert_eq!(
        part_disposition(&props(&[("disposition", "attachment")]), None),
        Disposition::Attachment("noname".into())
    );
    assert_eq!(
        part_disposition(&props(&[("filename", "~/a.txt")]), Some("a.txt".into())),
        Disposition::Attachment("a.txt".into())
    );
    assert_eq!(
        part_disposition(
            &props(&[("filename", "~/a.txt"), ("recipient-filename", "b.txt")]),
            Some("a.txt".into())
        ),
        Disposition::Attachment("b.txt".into())
    );
    assert_eq!(part_disposition(&props(&[("disposition", "other")]), None), Disposition::Unset);
    assert_eq!(part_disposition(&props(&[]), None), Disposition::Unset);
}
