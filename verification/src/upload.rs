//! Accepting an upload: the decisions on the fields of the multipart form.
//!
//! The form holds a `file` field, either an image or a JSON source list, and
//! optional hint fields. The caller reads each field; this module decides
//! what the field means, whether the upload is refused, and what the job
//! gets once the form is complete.
use crate::binary64::{is_finite_bits, Binary64};
use crate::models::NewJob;
use crate::protocol::SolveHints;
use crate::text::{ends_with_ignore_ascii_case, ends_with_ignore_case, str_eq, trim, trim_str};
use vstd::prelude::*;

verus! {

/// The radius, in degrees, of the sky region promoted from a source list
/// that gives a centre but no radius: 10 degrees.
pub const EMBEDDED_RADIUS_BITS: u64 = 0x4024_0000_0000_0000;

/// The fewest sources the solver can work with: it needs four to form a quad.
pub const MIN_SOURCES: usize = 4;

/// Why an upload is refused. Every one of them is a bad request.
#[derive(Debug, Clone, Copy, PartialEq, Eq, Structural)]
pub enum UploadRejection {
    /// A field could not be read.
    UnreadableField,
    /// The JSON source list could not be parsed.
    InvalidSourceList,
    /// The source list holds fewer sources than the solver needs.
    TooFewSources,
    /// A hint is not a number.
    InvalidHint,
    /// A hint is infinite or not a number.
    NonFiniteHint,
    /// The form holds no usable file.
    MissingFile,
}

/// One of the five hint fields.
#[derive(Debug, Clone, Copy, PartialEq, Eq, Structural)]
pub enum HintKey {
    ScaleMinArcsec,
    ScaleMaxArcsec,
    RaHintDeg,
    DecHintDeg,
    RadiusHintDeg,
}

/// What a form field is, by its name.
#[derive(Debug, Clone, Copy, PartialEq, Eq, Structural)]
pub enum FieldKind {
    /// `file`: the image or source list.
    File,
    /// One of the hint fields.
    Hint(HintKey),
    /// Anything else: read and ignored.
    Other,
}

/// The kind of the field named `name`.
pub open spec fn field_kind(name: Option<Seq<char>>) -> FieldKind {
    match name {
        Some(n) => if n == "file"@ {
            FieldKind::File
        } else if n == "scale_min_arcsec"@ {
            FieldKind::Hint(HintKey::ScaleMinArcsec)
        } else if n == "scale_max_arcsec"@ {
            FieldKind::Hint(HintKey::ScaleMaxArcsec)
        } else if n == "ra_hint_deg"@ {
            FieldKind::Hint(HintKey::RaHintDeg)
        } else if n == "dec_hint_deg"@ {
            FieldKind::Hint(HintKey::DecHintDeg)
        } else if n == "radius_hint_deg"@ {
            FieldKind::Hint(HintKey::RadiusHintDeg)
        } else {
            FieldKind::Other
        },
        None => FieldKind::Other,
    }
}

/// The kind of a field, by its name.
pub fn classify_field(name: Option<&str>) -> (k: FieldKind)
    ensures
        k == field_kind(
            match name {
                Some(n) => Some(n@),
                None => None,
            },
        ),
{
    match name {
        None => FieldKind::Other,
        Some(n) => {
            if str_eq(n, "file") {
                FieldKind::File
            } else if str_eq(n, "scale_min_arcsec") {
                FieldKind::Hint(HintKey::ScaleMinArcsec)
            } else if str_eq(n, "scale_max_arcsec") {
                FieldKind::Hint(HintKey::ScaleMaxArcsec)
            } else if str_eq(n, "ra_hint_deg") {
                FieldKind::Hint(HintKey::RaHintDeg)
            } else if str_eq(n, "dec_hint_deg") {
                FieldKind::Hint(HintKey::DecHintDeg)
            } else if str_eq(n, "radius_hint_deg") {
                FieldKind::Hint(HintKey::RadiusHintDeg)
            } else {
                FieldKind::Other
            }
        },
    }
}

/// Whether the file field holds a JSON source list rather than an image: its
/// name ends in `.json` in any ASCII case, or its content type is
/// `application/json`.
pub open spec fn json_upload(file_name: Option<Seq<char>>, content_type: Option<Seq<char>>) -> bool {
    ||| file_name matches Some(n) && ends_with_ignore_ascii_case(n, ".json"@)
    ||| content_type == Some("application/json"@)
}

/// Whether the file field holds a JSON source list.
pub fn is_json_upload(file_name: Option<&str>, content_type: Option<&str>) -> (r: bool)
    ensures
        r == json_upload(
            match file_name {
                Some(n) => Some(n@),
                None => None,
            },
            match content_type {
                Some(c) => Some(c@),
                None => None,
            },
        ),
{
    let by_name = match file_name {
        Some(n) => ends_with_ignore_case(n, ".json"),
        None => false,
    };
    let by_type = match content_type {
        Some(c) => str_eq(c, "application/json"),
        None => false,
    };
    by_name || by_type
}

/// The text of a hint field, trimmed; `None` when nothing is left, in which
/// case the field is ignored.
pub fn hint_text(raw: &str) -> (t: Option<String>)
    ensures
        match t {
            Some(s) => s@ == trim(raw@) && s@.len() > 0,
            None => trim(raw@).len() == 0,
        },
{
    let s = trim_str(raw);
    if s.unicode_len() == 0 {
        None
    } else {
        Some(s)
    }
}

/// The content of a file field, as the caller read it.
#[derive(Debug)]
pub enum FileContent<P> {
    /// The field was empty: it is ignored, but its file name is kept.
    Empty,
    /// An image, as the payload to solve.
    Image(P),
    /// A JSON source list that could not be parsed.
    UnreadableSources,
    /// A parsed JSON source list: the payload to solve, the number of
    /// sources, the field centre it gives, and the scale window (ten percent
    /// either side of the plate scale it gives).
    Sources {
        payload: P,
        n_sources: usize,
        ra_deg: Option<Binary64>,
        dec_deg: Option<Binary64>,
        scale_window: Option<(Binary64, Binary64)>,
    },
}

/// The state of a form being read.
pub struct UploadForm<P> {
    /// The name of the last file field.
    pub filename: Option<String>,
    /// The payload of the last non-empty file field.
    pub payload: Option<P>,
    /// Hints taken from a source list.
    pub embedded: SolveHints,
    /// Hints given by the form's hint fields.
    pub hints: SolveHints,
}

/// `h` with hint `key` set to `v`.
pub open spec fn with_hint(h: SolveHints, key: HintKey, v: Binary64) -> SolveHints {
    match key {
        HintKey::ScaleMinArcsec => SolveHints { scale_min_arcsec: Some(v), ..h },
        HintKey::ScaleMaxArcsec => SolveHints { scale_max_arcsec: Some(v), ..h },
        HintKey::RaHintDeg => SolveHints { ra_hint_deg: Some(v), ..h },
        HintKey::DecHintDeg => SolveHints { dec_hint_deg: Some(v), ..h },
        HintKey::RadiusHintDeg => SolveHints { radius_hint_deg: Some(v), ..h },
    }
}

/// The hints a source list adds: its centre with a 10 degree radius when it
/// gives both coordinates, and its scale window when it gives a scale.
pub open spec fn embed_sources(
    h: SolveHints,
    ra: Option<Binary64>,
    dec: Option<Binary64>,
    scale_window: Option<(Binary64, Binary64)>,
) -> SolveHints {
    let h1 = match (ra, dec) {
        (Some(r), Some(d)) => SolveHints {
            ra_hint_deg: Some(r),
            dec_hint_deg: Some(d),
            radius_hint_deg: Some(Binary64 { bits: EMBEDDED_RADIUS_BITS }),
            ..h
        },
        _ => h,
    };
    match scale_window {
        Some((lo, hi)) => SolveHints {
            scale_min_arcsec: Some(lo),
            scale_max_arcsec: Some(hi),
            ..h1
        },
        None => h1,
    }
}

/// Field by field, the hint of `primary` when it has one, else that of
/// `fallback`.
pub open spec fn merged_hints(primary: SolveHints, fallback: SolveHints) -> SolveHints {
    SolveHints {
        scale_min_arcsec: if primary.scale_min_arcsec is Some {
            primary.scale_min_arcsec
        } else {
            fallback.scale_min_arcsec
        },
        scale_max_arcsec: if primary.scale_max_arcsec is Some {
            primary.scale_max_arcsec
        } else {
            fallback.scale_max_arcsec
        },
        ra_hint_deg: if primary.ra_hint_deg is Some {
            primary.ra_hint_deg
        } else {
            fallback.ra_hint_deg
        },
        dec_hint_deg: if primary.dec_hint_deg is Some {
            primary.dec_hint_deg
        } else {
            fallback.dec_hint_deg
        },
        radius_hint_deg: if primary.radius_hint_deg is Some {
            primary.radius_hint_deg
        } else {
            fallback.radius_hint_deg
        },
    }
}

fn or_hint(a: Option<Binary64>, b: Option<Binary64>) -> (r: Option<Binary64>)
    ensures
        r == (if a is Some {
            a
        } else {
            b
        }),
{
    match a {
        Some(v) => Some(v),
        None => b,
    }
}

/// Field by field, the hint of `primary` when it has one, else that of
/// `fallback`.
pub fn merge_hints(primary: &SolveHints, fallback: &SolveHints) -> (h: SolveHints)
    ensures
        h == merged_hints(*primary, *fallback),
{
    SolveHints {
        scale_min_arcsec: or_hint(primary.scale_min_arcsec, fallback.scale_min_arcsec),
        scale_max_arcsec: or_hint(primary.scale_max_arcsec, fallback.scale_max_arcsec),
        ra_hint_deg: or_hint(primary.ra_hint_deg, fallback.ra_hint_deg),
        dec_hint_deg: or_hint(primary.dec_hint_deg, fallback.dec_hint_deg),
        radius_hint_deg: or_hint(primary.radius_hint_deg, fallback.radius_hint_deg),
    }
}

/// An upload that was accepted: what to solve, with which hints, and the row
/// of the new job.
#[derive(Debug)]
pub struct AcceptedUpload<P> {
    pub payload: P,
    pub hints: SolveHints,
    pub new_job: NewJob,
}

impl<P> UploadForm<P> {
    /// A form before any field was read.
    pub fn new() -> (f: UploadForm<P>)
        ensures
            f.filename is None,
            f.payload is None,
            f.embedded.is_empty(),
            f.hints.is_empty(),
    {
        UploadForm {
            filename: None,
            payload: None,
            embedded: SolveHints::default(),
            hints: SolveHints::default(),
        }
    }

    /// Takes in a file field. Its name is kept whatever it holds; an empty
    /// field is otherwise ignored; a source list is refused when it cannot be
    /// parsed or holds fewer than four sources, and else adds its hints; a
    /// non-empty field becomes the payload.
    pub fn accept_file(&mut self, file_name: Option<String>, content: FileContent<P>) -> (r: Result<
        (),
        UploadRejection,
    >)
        ensures
            final(self).filename == file_name,
            final(self).hints == old(self).hints,
            match content {
                FileContent::Empty => r is Ok && final(self).payload == old(self).payload
                    && final(self).embedded == old(self).embedded,
                FileContent::Image(p) => r is Ok && final(self).payload == Some(p)
                    && final(self).embedded == old(self).embedded,
                FileContent::UnreadableSources => r == Err::<(), UploadRejection>(
                    UploadRejection::InvalidSourceList,
                ),
                FileContent::Sources { payload, n_sources, ra_deg, dec_deg, scale_window } => {
                    if n_sources < MIN_SOURCES {
                        r == Err::<(), UploadRejection>(UploadRejection::TooFewSources)
                    } else {
                        &&& r is Ok
                        &&& final(self).payload == Some(payload)
                        &&& final(self).embedded == embed_sources(
                            old(self).embedded,
                            ra_deg,
                            dec_deg,
                            scale_window,
                        )
                    }
                },
            },
    {
        self.filename = file_name;
        match content {
            FileContent::Empty => Ok(()),
            FileContent::Image(p) => {
                self.payload = Some(p);
                Ok(())
            },
            FileContent::UnreadableSources => Err(UploadRejection::InvalidSourceList),
            FileContent::Sources { payload, n_sources, ra_deg, dec_deg, scale_window } => {
                if n_sources < MIN_SOURCES {
                    return Err(UploadRejection::TooFewSources);
                }
                match (ra_deg, dec_deg) {
                    (Some(ra), Some(dec)) => {
                        self.embedded.ra_hint_deg = Some(ra);
                        self.embedded.dec_hint_deg = Some(dec);
                        self.embedded.radius_hint_deg = Some(
                            Binary64 { bits: EMBEDDED_RADIUS_BITS },
                        );
                    },
                    _ => {},
                }
                match scale_window {
                    Some((lo, hi)) => {
                        self.embedded.scale_min_arcsec = Some(lo);
                        self.embedded.scale_max_arcsec = Some(hi);
                    },
                    None => {},
                }
                self.payload = Some(payload);
                Ok(())
            },
        }
    }

    /// Takes in a hint field whose trimmed text was parsed as a number;
    /// `None` when it was not a number. A hint that is not a finite number
    /// refuses the upload.
    pub fn accept_hint(&mut self, key: HintKey, value: Option<Binary64>) -> (r: Result<
        (),
        UploadRejection,
    >)
        ensures
            final(self).filename == old(self).filename,
            final(self).payload == old(self).payload,
            final(self).embedded == old(self).embedded,
            match value {
                None => r == Err::<(), UploadRejection>(UploadRejection::InvalidHint),
                Some(v) => if is_finite_bits(v.bits) {
                    r is Ok && final(self).hints == with_hint(old(self).hints, key, v)
                } else {
                    r == Err::<(), UploadRejection>(UploadRejection::NonFiniteHint)
                },
            },
    {
        let v = match value {
            None => return Err(UploadRejection::InvalidHint),
            Some(v) => v,
        };
        if !v.is_finite() {
            return Err(UploadRejection::NonFiniteHint);
        }
        match key {
            HintKey::ScaleMinArcsec => self.hints.scale_min_arcsec = Some(v),
            HintKey::ScaleMaxArcsec => self.hints.scale_max_arcsec = Some(v),
            HintKey::RaHintDeg => self.hints.ra_hint_deg = Some(v),
            HintKey::DecHintDeg => self.hints.dec_hint_deg = Some(v),
            HintKey::RadiusHintDeg => self.hints.radius_hint_deg = Some(v),
        }
        Ok(())
    }

    /// Completes the form: refused without a payload; otherwise the payload,
    /// the hint fields merged over the hints of the source list, and the row
    /// of the new job with the last file name.
    pub fn finish(self) -> (r: Result<AcceptedUpload<P>, UploadRejection>)
        ensures
            match self.payload {
                None => r == Err::<AcceptedUpload<P>, UploadRejection>(
                    UploadRejection::MissingFile,
                ),
                Some(p) => r matches Ok(a) && a.payload == p && a.hints == merged_hints(
                    self.hints,
                    self.embedded,
                ) && a.new_job.original_filename == self.filename,
            },
    {
        let hints = merge_hints(&self.hints, &self.embedded);
        match self.payload {
            None => Err(UploadRejection::MissingFile),
            Some(payload) => Ok(
                AcceptedUpload { payload, hints, new_job: NewJob::new(self.filename) },
            ),
        }
    }
}

/// The hints of the form's fields win over those of a source list, field by
/// field: a field given in the form keeps its value, any other takes the
/// source list's.
pub proof fn lemma_form_hints_win(form: SolveHints, embedded: SolveHints)
    ensures
        form.scale_min_arcsec is Some ==> merged_hints(form, embedded).scale_min_arcsec
            == form.scale_min_arcsec,
        form.scale_min_arcsec is None ==> merged_hints(form, embedded).scale_min_arcsec
            == embedded.scale_min_arcsec,
        form.scale_max_arcsec is Some ==> merged_hints(form, embedded).scale_max_arcsec
            == form.scale_max_arcsec,
        form.scale_max_arcsec is None ==> merged_hints(form, embedded).scale_max_arcsec
            == embedded.scale_max_arcsec,
        form.ra_hint_deg is Some ==> merged_hints(form, embedded).ra_hint_deg == form.ra_hint_deg,
        form.ra_hint_deg is None ==> merged_hints(form, embedded).ra_hint_deg
            == embedded.ra_hint_deg,
        form.dec_hint_deg is Some ==> merged_hints(form, embedded).dec_hint_deg
            == form.dec_hint_deg,
        form.dec_hint_deg is None ==> merged_hints(form, embedded).dec_hint_deg
            == embedded.dec_hint_deg,
        form.radius_hint_deg is Some ==> merged_hints(form, embedded).radius_hint_deg
            == form.radius_hint_deg,
        form.radius_hint_deg is None ==> merged_hints(form, embedded).radius_hint_deg
            == embedded.radius_hint_deg,
{
}

/// Without hints from a source list, the form's hints are used as given.
pub proof fn lemma_merge_with_nothing(form: SolveHints, embedded: SolveHints)
    requires
        embedded.is_empty(),
    ensures
        merged_hints(form, embedded) == form,
{
}

/// Every hint that reaches a solve through the form is finite: the form
/// refuses the others.
pub proof fn lemma_accepted_hints_are_finite(h: SolveHints, key: HintKey, v: Binary64)
    requires
        is_finite_bits(v.bits),
        h.scale_min_arcsec matches Some(x) ==> is_finite_bits(x.bits),
        h.scale_max_arcsec matches Some(x) ==> is_finite_bits(x.bits),
        h.ra_hint_deg matches Some(x) ==> is_finite_bits(x.bits),
        h.dec_hint_deg matches Some(x) ==> is_finite_bits(x.bits),
        h.radius_hint_deg matches Some(x) ==> is_finite_bits(x.bits),
    ensures
        ({
            let g = with_hint(h, key, v);
            &&& g.scale_min_arcsec matches Some(x) ==> is_finite_bits(x.bits)
            &&& g.scale_max_arcsec matches Some(x) ==> is_finite_bits(x.bits)
            &&& g.ra_hint_deg matches Some(x) ==> is_finite_bits(x.bits)
            &&& g.dec_hint_deg matches Some(x) ==> is_finite_bits(x.bits)
            &&& g.radius_hint_deg matches Some(x) ==> is_finite_bits(x.bits)
        }),
{
}

/// One field of the form, as the caller read it.
#[derive(Debug)]
pub enum FormField<P> {
    /// A `file` field: its file name and what it holds.
    File { file_name: Option<String>, content: FileContent<P> },
    /// A hint field with text: its key, and the number its trimmed text
    /// parsed as (`None` when it is not a number).
    Hint { key: HintKey, value: Option<Binary64> },
    /// A field the form ignores: one under any other name, or a hint field
    /// with no text. It was read without error.
    Other,
}

/// The form after it takes in `field`, or why the upload is refused.
pub open spec fn field_outcome<P>(f: UploadForm<P>, field: FormField<P>) -> Result<
    UploadForm<P>,
    UploadRejection,
> {
    match field {
        FormField::File { file_name, content } => match content {
            FileContent::Empty => Ok(UploadForm { filename: file_name, ..f }),
            FileContent::Image(p) => Ok(UploadForm { filename: file_name, payload: Some(p), ..f }),
            FileContent::UnreadableSources => Err(UploadRejection::InvalidSourceList),
            FileContent::Sources { payload, n_sources, ra_deg, dec_deg, scale_window } => {
                if n_sources < MIN_SOURCES {
                    Err(UploadRejection::TooFewSources)
                } else {
                    Ok(
                        UploadForm {
                            filename: file_name,
                            payload: Some(payload),
                            embedded: embed_sources(f.embedded, ra_deg, dec_deg, scale_window),
                            ..f
                        },
                    )
                }
            },
        },
        FormField::Hint { key, value } => match value {
            None => Err(UploadRejection::InvalidHint),
            Some(v) => if is_finite_bits(v.bits) {
                Ok(UploadForm { hints: with_hint(f.hints, key, v), ..f })
            } else {
                Err(UploadRejection::NonFiniteHint)
            },
        },
        FormField::Other => Ok(f),
    }
}

/// The form after it takes in `fields` in order, or the refusal of the first
/// field that refuses the upload.
pub open spec fn form_run<P>(f: UploadForm<P>, fields: Seq<FormField<P>>) -> Result<
    UploadForm<P>,
    UploadRejection,
>
    decreases fields.len(),
{
    if fields.len() == 0 {
        Ok(f)
    } else {
        match form_run(f, fields.drop_last()) {
            Ok(g) => field_outcome(g, fields.last()),
            Err(e) => Err(e),
        }
    }
}

/// Whether `field` is one the form takes into account.
pub open spec fn is_form_field<P>(field: FormField<P>) -> bool {
    !(field is Other)
}

impl<P> UploadForm<P> {
    /// Takes in one field of the form: a file field, a hint field, or a
    /// field that is ignored.
    pub fn accept_field(&mut self, field: FormField<P>) -> (r: Result<(), UploadRejection>)
        ensures
            match field_outcome(*old(self), field) {
                Ok(g) => r is Ok && *final(self) == g,
                Err(e) => r == Err::<(), UploadRejection>(e),
            },
    {
        match field {
            FormField::File { file_name, content } => self.accept_file(file_name, content),
            FormField::Hint { key, value } => self.accept_hint(key, value),
            FormField::Other => Ok(()),
        }
    }
}

/// A form reads the same with its ignored fields as without them, wherever
/// they stand: fields under other names never change the outcome.
pub proof fn lemma_ignored_fields_change_nothing<P>(f: UploadForm<P>, fields: Seq<FormField<P>>)
    ensures
        form_run(f, fields) == form_run(f, fields.filter(|x: FormField<P>| is_form_field(x))),
    decreases fields.len(),
{
    reveal(Seq::filter);
    let pred = |x: FormField<P>| is_form_field(x);
    if fields.len() > 0 {
        lemma_ignored_fields_change_nothing(f, fields.drop_last());
        let rest = fields.drop_last().filter(pred);
        if pred(fields.last()) {
            assert(rest.push(fields.last()).drop_last() =~= rest);
        }
    }
}

/// Setting a hint writes the value into the field its key names, and only
/// there: every other hint is kept.
pub proof fn lemma_hint_lands_in_its_field(h: SolveHints, key: HintKey, v: Binary64)
    ensures
        key == HintKey::ScaleMinArcsec ==> with_hint(h, key, v) == (SolveHints {
            scale_min_arcsec: Some(v),
            scale_max_arcsec: h.scale_max_arcsec,
            ra_hint_deg: h.ra_hint_deg,
            dec_hint_deg: h.dec_hint_deg,
            radius_hint_deg: h.radius_hint_deg,
        }),
        key == HintKey::ScaleMaxArcsec ==> with_hint(h, key, v) == (SolveHints {
            scale_min_arcsec: h.scale_min_arcsec,
            scale_max_arcsec: Some(v),
            ra_hint_deg: h.ra_hint_deg,
            dec_hint_deg: h.dec_hint_deg,
            radius_hint_deg: h.radius_hint_deg,
        }),
        key == HintKey::RaHintDeg ==> with_hint(h, key, v) == (SolveHints {
            scale_min_arcsec: h.scale_min_arcsec,
            scale_max_arcsec: h.scale_max_arcsec,
            ra_hint_deg: Some(v),
            dec_hint_deg: h.dec_hint_deg,
            radius_hint_deg: h.radius_hint_deg,
        }),
        key == HintKey::DecHintDeg ==> with_hint(h, key, v) == (SolveHints {
            scale_min_arcsec: h.scale_min_arcsec,
            scale_max_arcsec: h.scale_max_arcsec,
            ra_hint_deg: h.ra_hint_deg,
            dec_hint_deg: Some(v),
            radius_hint_deg: h.radius_hint_deg,
        }),
        key == HintKey::RadiusHintDeg ==> with_hint(h, key, v) == (SolveHints {
            scale_min_arcsec: h.scale_min_arcsec,
            scale_max_arcsec: h.scale_max_arcsec,
            ra_hint_deg: h.ra_hint_deg,
            dec_hint_deg: h.dec_hint_deg,
            radius_hint_deg: Some(v),
        }),
{
}

/// A hint field's name selects the key of the field it sets: the field
/// named `dec_hint_deg` sets the declination, `radius_hint_deg` the radius,
/// and so on.
pub proof fn lemma_hint_names_select_their_fields(h: SolveHints, v: Binary64)
    ensures
        field_kind(Some("scale_min_arcsec"@)) matches FieldKind::Hint(k) && with_hint(
            h,
            k,
            v,
        ).scale_min_arcsec == Some(v),
        field_kind(Some("scale_max_arcsec"@)) matches FieldKind::Hint(k) && with_hint(
            h,
            k,
            v,
        ).scale_max_arcsec == Some(v),
        field_kind(Some("ra_hint_deg"@)) matches FieldKind::Hint(k) && with_hint(h, k, v).ra_hint_deg
            == Some(v),
        field_kind(Some("dec_hint_deg"@)) matches FieldKind::Hint(k) && with_hint(
            h,
            k,
            v,
        ).dec_hint_deg == Some(v),
        field_kind(Some("radius_hint_deg"@)) matches FieldKind::Hint(k) && with_hint(
            h,
            k,
            v,
        ).radius_hint_deg == Some(v),
{
    reveal_strlit("file");
    reveal_strlit("scale_min_arcsec");
    reveal_strlit("scale_max_arcsec");
    reveal_strlit("ra_hint_deg");
    reveal_strlit("dec_hint_deg");
    reveal_strlit("radius_hint_deg");
    assert("scale_max_arcsec"@[7] != "scale_min_arcsec"@[7]);
    assert(field_kind(Some("scale_min_arcsec"@)) == FieldKind::Hint(HintKey::ScaleMinArcsec)) by {
        assert("scale_min_arcsec"@.len() == 16);
    }
    assert(field_kind(Some("scale_max_arcsec"@)) == FieldKind::Hint(HintKey::ScaleMaxArcsec)) by {
        assert("scale_max_arcsec"@.len() == 16);
    }
    assert(field_kind(Some("ra_hint_deg"@)) == FieldKind::Hint(HintKey::RaHintDeg)) by {
        assert("ra_hint_deg"@.len() == 11);
    }
    assert(field_kind(Some("dec_hint_deg"@)) == FieldKind::Hint(HintKey::DecHintDeg)) by {
        assert("dec_hint_deg"@.len() == 12);
    }
    assert(field_kind(Some("radius_hint_deg"@)) == FieldKind::Hint(HintKey::RadiusHintDeg)) by {
        assert("radius_hint_deg"@.len() == 15);
    }
}

/// A source list fills in the sky region only when it gives both centre
/// coordinates, and then with those coordinates and a radius of 10 degrees
/// (the binary64 pattern of 10.0); it
/// fills in the scale window only when it gives a scale, with both ends of
/// that window; every other hint is kept.
pub proof fn lemma_source_list_fills_its_hints(
    h: SolveHints,
    ra: Option<Binary64>,
    dec: Option<Binary64>,
    window: Option<(Binary64, Binary64)>,
)
    ensures
        ({
            let g = embed_sources(h, ra, dec, window);
            &&& (ra is Some && dec is Some) ==> g.ra_hint_deg == ra && g.dec_hint_deg == dec
                && g.radius_hint_deg == Some(Binary64 { bits: 0x4024_0000_0000_0000 })
            &&& !(ra is Some && dec is Some) ==> g.ra_hint_deg == h.ra_hint_deg && g.dec_hint_deg
                == h.dec_hint_deg && g.radius_hint_deg == h.radius_hint_deg
            &&& window matches Some((lo, hi)) ==> g.scale_min_arcsec == Some(lo)
                && g.scale_max_arcsec == Some(hi)
            &&& window is None ==> g.scale_min_arcsec == h.scale_min_arcsec && g.scale_max_arcsec
                == h.scale_max_arcsec
        }),
{
}

/// What each kind of field does to the form. A finite hint is recorded in
/// its field, and a hint that is missing or not finite refuses the upload.
/// A file field always leaves its name as the file name: an image or a
/// source list of at least four sources becomes the payload, an empty field
/// keeps the payload there was, and a source list that cannot be read or is
/// too short refuses the upload. Hints of the form never change on a file
/// field, nor the file on a hint field.
pub proof fn lemma_form_fields_do_what_they_say<P>(f: UploadForm<P>, field: FormField<P>)
    ensures
        match field {
            FormField::Hint { key, value } => match value {
                Some(v) => if is_finite_bits(v.bits) {
                    field_outcome(f, field) matches Ok(g) && g.filename == f.filename && g.payload
                        == f.payload && g.embedded == f.embedded && g.hints == with_hint(
                        f.hints,
                        key,
                        v,
                    )
                } else {
                    field_outcome(f, field) == Err::<UploadForm<P>, UploadRejection>(
                        UploadRejection::NonFiniteHint,
                    )
                },
                None => field_outcome(f, field) == Err::<UploadForm<P>, UploadRejection>(
                    UploadRejection::InvalidHint,
                ),
            },
            FormField::File { file_name, content } => match content {
                FileContent::Empty => field_outcome(f, field) matches Ok(g) && g.filename
                    == file_name && g.payload == f.payload && g.hints == f.hints && g.embedded
                    == f.embedded,
                FileContent::Image(p) => field_outcome(f, field) matches Ok(g) && g.filename
                    == file_name && g.payload == Some(p) && g.hints == f.hints && g.embedded
                    == f.embedded,
                FileContent::UnreadableSources => field_outcome(f, field) == Err::<
                    UploadForm<P>,
                    UploadRejection,
                >(UploadRejection::InvalidSourceList),
                FileContent::Sources { payload, n_sources, ra_deg, dec_deg, scale_window } => if n_sources
                    < 4 {
                    field_outcome(f, field) == Err::<UploadForm<P>, UploadRejection>(
                        UploadRejection::TooFewSources,
                    )
                } else {
                    field_outcome(f, field) matches Ok(g) && g.filename == file_name && g.payload
                        == Some(payload) && g.hints == f.hints && g.embedded == embed_sources(
                        f.embedded,
                        ra_deg,
                        dec_deg,
                        scale_window,
                    )
                },
            },
            FormField::Other => field_outcome(f, field) == Ok::<UploadForm<P>, UploadRejection>(f),
        },
{
}

} // verus!
