use zodiacal_web::binary64::Binary64;
use zodiacal_web::protocol::SolveHints;
use zodiacal_web::upload::{
    classify_field, hint_text, is_json_upload, merge_hints, FieldKind, FileContent, FormField,
    HintKey, UploadForm, UploadRejection, EMBEDDED_RADIUS_BITS, MIN_SOURCES,
};

fn b(x: f64) -> Binary64 {
    Binary64::from_bits(x.to_bits())
}

#[test]
fn fields_are_classified_by_name() {
    assert_eq!(classify_field(Some("file")), FieldKind::File);
    assert_eq!(classify_field(Some("scale_min_arcsec")), FieldKind::Hint(HintKey::ScaleMinArcsec));
    assert_eq!(classify_field(Some("scale_max_arcsec")), FieldKind::Hint(HintKey::ScaleMaxArcsec));
    assert_eq!(classify_field(Some("ra_hint_deg")), FieldKind::Hint(HintKey::RaHintDeg));
    assert_eq!(classify_field(Some("dec_hint_deg")), FieldKind::Hint(HintKey::DecHintDeg));
    assert_eq!(classify_field(Some("radius_hint_deg")), FieldKind::Hint(HintKey::RadiusHintDeg));
    assert_eq!(classify_field(Some("csrf_token")), FieldKind::Other);
    assert_eq!(classify_field(Some("File")), FieldKind::Other);
    assert_eq!(classify_field(None), FieldKind::Other);
}

#[test]
fn json_uploads_are_recognised() {
    assert!(is_json_upload(Some("sources.json"), None));
    assert!(is_json_upload(Some("SOURCES.JSON"), Some("image/png")));
    assert!(is_json_upload(Some("x.Json"), None));
    assert!(is_json_upload(None, Some("application/json")));
    assert!(is_json_upload(Some("frame.fits"), Some("application/json")));
    assert!(!is_json_upload(Some("frame.fits"), None));
    assert!(!is_json_upload(Some("json"), None));
    assert!(!is_json_upload(Some("a.json.png"), Some("image/png")));
    assert!(!is_json_upload(None, Some("application/JSON")));
    assert!(!is_json_upload(None, None));
}

#[test]
fn hint_text_is_trimmed() {
    assert_eq!(hint_text("  0.25\t\n").as_deref(), Some("0.25"));
    assert_eq!(hint_text("1 2").as_deref(), Some("1 2"));
    assert_eq!(hint_text("   "), None);
    assert_eq!(hint_text(""), None);
    assert_eq!(hint_text("\u{3000}5\u{a0}").as_deref(), Some("5"));
    for raw in ["  x ", "\u{2003}a\u{2028}", "ab", " \u{85}q\u{85} "] {
        assert_eq!(hint_text(raw).as_deref(), Some(raw.trim()));
    }
}

#[test]
fn image_upload_is_accepted_with_its_hints() {
    let mut form: UploadForm<Vec<u8>> = UploadForm::new();
    assert_eq!(form.accept_file(Some("m31.png".to_string()), FileContent::Image(vec![1, 2, 3])), Ok(()));
    assert_eq!(form.accept_hint(HintKey::ScaleMinArcsec, Some(b(0.1))), Ok(()));
    assert_eq!(form.accept_hint(HintKey::ScaleMaxArcsec, Some(b(0.2))), Ok(()));
    let accepted = form.finish().unwrap();
    assert_eq!(accepted.payload, vec![1, 2, 3]);
    assert_eq!(accepted.new_job.original_filename.as_deref(), Some("m31.png"));
    assert_eq!(accepted.hints.scale_min_arcsec, Some(b(0.1)));
    assert_eq!(accepted.hints.scale_max_arcsec, Some(b(0.2)));
    assert_eq!(accepted.hints.ra_hint_deg, None);
}

#[test]
fn upload_without_file_is_refused() {
    let mut form: UploadForm<Vec<u8>> = UploadForm::new();
    assert_eq!(form.accept_hint(HintKey::RaHintDeg, Some(b(10.0))), Ok(()));
    assert!(matches!(form.finish(), Err(UploadRejection::MissingFile)));
}

#[test]
fn empty_file_keeps_name_but_is_no_payload() {
    let mut form: UploadForm<Vec<u8>> = UploadForm::new();
    assert_eq!(form.accept_file(Some("empty.fits".to_string()), FileContent::Empty), Ok(()));
    assert_eq!(form.filename.as_deref(), Some("empty.fits"));
    assert!(matches!(form.finish(), Err(UploadRejection::MissingFile)));
}

#[test]
fn bad_hints_are_refused() {
    let mut form: UploadForm<Vec<u8>> = UploadForm::new();
    assert_eq!(form.accept_hint(HintKey::DecHintDeg, None), Err(UploadRejection::InvalidHint));
    for x in [f64::INFINITY, f64::NEG_INFINITY, f64::NAN] {
        assert_eq!(form.accept_hint(HintKey::DecHintDeg, Some(b(x))), Err(UploadRejection::NonFiniteHint));
    }
    assert_eq!(form.hints, SolveHints::default());
}

#[test]
fn source_list_needs_four_sources() {
    let mut form: UploadForm<&str> = UploadForm::new();
    let r = form.accept_file(
        Some("s.json".to_string()),
        FileContent::Sources { payload: "list", n_sources: 3, ra_deg: None, dec_deg: None, scale_window: None },
    );
    assert_eq!(r, Err(UploadRejection::TooFewSources));
    assert_eq!(MIN_SOURCES, 4);
    let mut form: UploadForm<&str> = UploadForm::new();
    assert_eq!(
        form.accept_file(Some("s.json".to_string()), FileContent::UnreadableSources),
        Err(UploadRejection::InvalidSourceList)
    );
}

#[test]
fn source_list_hints_are_promoted_and_form_hints_win() {
    let mut form: UploadForm<&str> = UploadForm::new();
    let r = form.accept_file(
        Some("s.json".to_string()),
        FileContent::Sources {
            payload: "list",
            n_sources: 4,
            ra_deg: Some(b(83.8)),
            dec_deg: Some(b(-5.4)),
            scale_window: Some((b(1.5 * 0.9), b(1.5 * 1.1))),
        },
    );
    assert_eq!(r, Ok(()));
    assert_eq!(form.accept_hint(HintKey::RaHintDeg, Some(b(84.0))), Ok(()));
    let accepted = form.finish().unwrap();
    assert_eq!(accepted.payload, "list");
    assert_eq!(accepted.hints.ra_hint_deg, Some(b(84.0)));
    assert_eq!(accepted.hints.dec_hint_deg, Some(b(-5.4)));
    assert_eq!(accepted.hints.radius_hint_deg, Some(b(10.0)));
    assert_eq!(accepted.hints.scale_min_arcsec, Some(b(1.5 * 0.9)));
    assert_eq!(accepted.hints.scale_max_arcsec, Some(b(1.5 * 1.1)));
}

#[test]
fn embedded_radius_is_ten_degrees() {
    assert_eq!(f64::from_bits(EMBEDDED_RADIUS_BITS), 10.0);
}

#[test]
fn source_list_centre_needs_both_coordinates() {
    let mut form: UploadForm<&str> = UploadForm::new();
    let r = form.accept_file(
        None,
        FileContent::Sources { payload: "list", n_sources: 10, ra_deg: Some(b(1.0)), dec_deg: None, scale_window: None },
    );
    assert_eq!(r, Ok(()));
    assert_eq!(form.embedded, SolveHints::default());
}

#[test]
fn merge_prefers_first_field_by_field() {
    let form = SolveHints { scale_min_arcsec: Some(b(1.0)), ra_hint_deg: Some(b(2.0)), ..Default::default() };
    let embedded = SolveHints {
        scale_min_arcsec: Some(b(9.0)),
        scale_max_arcsec: Some(b(8.0)),
        ra_hint_deg: Some(b(7.0)),
        dec_hint_deg: Some(b(6.0)),
        radius_hint_deg: None,
    };
    let m = merge_hints(&form, &embedded);
    assert_eq!(m.scale_min_arcsec, Some(b(1.0)));
    assert_eq!(m.scale_max_arcsec, Some(b(8.0)));
    assert_eq!(m.ra_hint_deg, Some(b(2.0)));
    assert_eq!(m.dec_hint_deg, Some(b(6.0)));
    assert_eq!(m.radius_hint_deg, None);
}

/// The fields of a form, with `noise` fields (read and ignored) put in
/// before, between and after them when asked.
fn fields(noise: bool) -> Vec<FormField<Vec<u8>>> {
    let mut v = Vec::new();
    if noise {
        v.push(FormField::Other);
    }
    v.push(FormField::File { file_name: Some("m51.fits".to_string()), content: FileContent::Image(vec![9, 8]) });
    if noise {
        v.push(FormField::Other);
        v.push(FormField::Other);
    }
    v.push(FormField::Hint { key: HintKey::RaHintDeg, value: Some(b(202.5)) });
    if noise {
        v.push(FormField::Other);
    }
    v
}

fn run(fields: Vec<FormField<Vec<u8>>>) -> Result<(Vec<u8>, Option<String>, SolveHints), UploadRejection> {
    let mut form: UploadForm<Vec<u8>> = UploadForm::new();
    for f in fields {
        form.accept_field(f)?;
    }
    form.finish().map(|a| (a.payload, a.new_job.original_filename, a.hints))
}

#[test]
fn ignored_fields_do_not_change_the_upload() {
    let plain = run(fields(false)).unwrap();
    let noisy = run(fields(true)).unwrap();
    assert_eq!(plain, noisy);
    assert_eq!(plain.0, vec![9, 8]);
    assert_eq!(plain.1.as_deref(), Some("m51.fits"));
    assert_eq!(plain.2.ra_hint_deg, Some(b(202.5)));
}

#[test]
fn accept_field_refuses_as_the_field_does() {
    let mut form: UploadForm<Vec<u8>> = UploadForm::new();
    assert_eq!(form.accept_field(FormField::Other), Ok(()));
    assert_eq!(form.accept_field(FormField::Hint { key: HintKey::DecHintDeg, value: None }), Err(UploadRejection::InvalidHint));
    let mut form: UploadForm<Vec<u8>> = UploadForm::new();
    assert_eq!(
        form.accept_field(FormField::File { file_name: None, content: FileContent::UnreadableSources }),
        Err(UploadRejection::InvalidSourceList)
    );
    let only_noise = run(vec![FormField::Other, FormField::Other]);
    assert_eq!(only_noise, Err(UploadRejection::MissingFile));
}
