//! Log entries: what a submitted form turns into once its material has been
//! looked up in the catalog.

use vstd::prelude::*;
use crate::catalog::Catalog;
use crate::failure::Failure;
use crate::material::{option_text, LogMaterial, LogMaterialView, MaterialView};
use crate::slug::{entry_key, entry_label, slug_text};

verus! {

/// A thickness measurement, carried through unchanged as the bit pattern of
/// an IEEE 754 binary32 number.
#[derive(Clone, Copy, Debug, PartialEq, Eq, Structural)]
pub struct Thickness {
    pub bits: u32,
}

/// Mathematical model of an [`EntryForm`].
pub struct EntryFormView {
    pub timestamp: int,
    pub user: Seq<char>,
    pub material: Seq<char>,
    pub thickness: Thickness,
    pub comment: Seq<char>,
}

/// A submitted usage entry: who used how much of which material, and when.
/// `material` is the slug of a catalog entry, `timestamp` counts seconds
/// since the Unix epoch.
#[derive(Debug, PartialEq, Eq)]
pub struct EntryForm {
    pub timestamp: i64,
    pub user: String,
    pub material: String,
    pub thickness: Thickness,
    pub comment: String,
}

impl View for EntryForm {
    type V = EntryFormView;

    open spec fn view(&self) -> EntryFormView {
        EntryFormView {
            timestamp: self.timestamp as int,
            user: self.user@,
            material: self.material@,
            thickness: self.thickness,
            comment: self.comment@,
        }
    }
}

/// Mathematical model of an [`Entry`].
pub struct EntryView {
    pub timestamp: Seq<char>,
    pub user: Seq<char>,
    pub thickness: Thickness,
    pub comment: Seq<char>,
    pub material: LogMaterialView,
}

/// A usage entry as it is logged: the timestamp rendered for people to read,
/// and the material quoted from the catalog.
#[derive(Debug, PartialEq, Eq)]
pub struct Entry {
    pub timestamp: String,
    pub user: String,
    pub thickness: Thickness,
    pub comment: String,
    pub material: LogMaterial,
}

impl View for Entry {
    type V = EntryView;

    open spec fn view(&self) -> EntryView {
        EntryView {
            timestamp: self.timestamp@,
            user: self.user@,
            thickness: self.thickness,
            comment: self.comment@,
            material: self.material@,
        }
    }
}

/// Mathematical model of a [`LogRecord`].
pub struct LogRecordView {
    pub slug: Seq<char>,
    pub entry: EntryView,
}

/// One record of the log: an entry and the key it is filed under.
#[derive(Debug, PartialEq, Eq)]
pub struct LogRecord {
    pub slug: String,
    pub entry: Entry,
}

impl View for LogRecord {
    type V = LogRecordView;

    open spec fn view(&self) -> LogRecordView {
        LogRecordView { slug: self.slug@, entry: self.entry@ }
    }
}

/// Mathematical model of the outcome of a submission.
pub open spec fn outcome_view(outcome: Result<LogRecord, Failure>) -> Result<
    LogRecordView,
    Failure,
> {
    match outcome {
        Ok(record) => Ok(record@),
        Err(failure) => Err(failure),
    }
}

/// The UTC date and time of the moment `timestamp` seconds after the Unix
/// epoch, as text; `None` where that moment lies outside the range of dates
/// that can be represented.
pub uninterp spec fn utc_text(timestamp: i64) -> Option<Seq<char>>;

/// The record that a submission leads to. The material must be in the
/// catalog and the timestamp must have a rendering; `key` is the key to file
/// the record under.
pub open spec fn logged(
    catalog: Map<Seq<char>, MaterialView>,
    form: EntryFormView,
    rendered: Option<Seq<char>>,
    key: Seq<char>,
) -> Result<LogRecordView, Failure> {
    if !catalog.contains_key(form.material) {
        Err(Failure::UnknownMaterial)
    } else if rendered is None {
        Err(Failure::InvalidTimestamp)
    } else {
        Ok(
            LogRecordView {
                slug: key,
                entry: EntryView {
                    timestamp: rendered->0,
                    user: form.user,
                    thickness: form.thickness,
                    comment: form.comment,
                    material: LogMaterialView::quoting(form.material, catalog[form.material]),
                },
            },
        )
    }
}

/// Calls `chrono::DateTime::from_timestamp` with no nanoseconds and prints
/// the naive UTC date and time of the result. Trusted: the outcome, `None`
/// for a number of seconds out of range, depends on the timestamp alone.
#[verifier::external_body]
pub(crate) fn render_timestamp(timestamp: i64) -> (rendered: Option<String>)
    ensures
        option_text(rendered) == utc_text(timestamp),
{
    match chrono::DateTime::from_timestamp(timestamp, 0) {
        Some(moment) => Some(moment.naive_utc().to_string()),
        None => None,
    }
}

/// Builds the record for `form` from the catalog, the rendered timestamp and
/// the key. Nothing is built for a material that the catalog does not hold.
pub fn build_entry(catalog: &Catalog, form: &EntryForm, rendered: Option<String>, key: String) -> (outcome:
    Result<LogRecord, Failure>)
    ensures
        outcome_view(outcome) == logged(catalog@, form@, option_text(rendered), key@),
{
    let material = match catalog.get(form.material.as_str()) {
        Some(material) => material,
        None => {
            return Err(Failure::UnknownMaterial);
        },
    };
    let timestamp = match rendered {
        Some(text) => text,
        None => {
            return Err(Failure::InvalidTimestamp);
        },
    };
    Ok(
        LogRecord {
            slug: key,
            entry: Entry {
                timestamp,
                user: form.user.clone(),
                thickness: form.thickness,
                comment: form.comment.clone(),
                material: LogMaterial::quote(form.material.as_str(), material),
            },
        },
    )
}

/// Turns a submitted form into the record to log: the material is resolved
/// against the catalog, the timestamp is rendered as UTC date and time, and
/// the key is the slug of user and timestamp.
pub fn submit_entry(catalog: &Catalog, form: &EntryForm) -> (outcome: Result<LogRecord, Failure>)
    ensures
        outcome_view(outcome) == logged(
            catalog@,
            form@,
            utc_text(form.timestamp),
            slug_text(entry_label(form.user@, form.timestamp as int)),
        ),
{
    let rendered = render_timestamp(form.timestamp);
    let key = entry_key(form.user.as_str(), form.timestamp);
    build_entry(catalog, form, rendered, key)
}

} // verus!
