//! The handling of one notification record, from its validation to the
//! outcome that is reported for it.
//!
//! A record is handled in stages, and storage is asked for something between
//! them. Each stage is a value: it says what to ask for, and it is resumed
//! with the answer, which gives the next stage. An answer can only be given
//! to the stage that asked.

use vstd::prelude::*;
use crate::codec::convert;
use crate::codec::conversion;
use crate::codec::converted_view;
use crate::codec::ConversionError;
use crate::codec::DecodeError;
use crate::codec::EncodeError;
use crate::codec::EncodedPng;
use crate::codec::Failure;
use crate::codec::PngView;
use crate::config::Config;
use crate::config::ConfigView;
use crate::key_mapper::map_key;
use crate::key_mapper::mapped_key;

verus! {

/// One entry of a storage notification. Either field may be missing.
#[derive(Clone, Debug)]
pub struct NotificationRecord {
    pub bucket: Option<String>,
    pub key: Option<String>,
}

/// A `NotificationRecord` as plain text.
pub struct RecordView {
    pub bucket: Option<Seq<char>>,
    pub key: Option<Seq<char>>,
}

impl View for NotificationRecord {
    type V = RecordView;

    open spec fn view(&self) -> RecordView {
        RecordView {
            bucket: match self.bucket {
                Some(bucket) => Some(bucket@),
                None => None,
            },
            key: match self.key {
                Some(key) => Some(key@),
                None => None,
            },
        }
    }
}

/// A request to read an object.
#[derive(Clone, Debug)]
pub struct FetchRequest {
    pub bucket: String,
    pub key: String,
}

/// A `FetchRequest` as plain text.
pub struct FetchRequestView {
    pub bucket: Seq<char>,
    pub key: Seq<char>,
}

impl View for FetchRequest {
    type V = FetchRequestView;

    open spec fn view(&self) -> FetchRequestView {
        FetchRequestView { bucket: self.bucket@, key: self.key@ }
    }
}

/// A request to write an object, with the metadata to write it with.
#[derive(Clone, Debug)]
pub struct StoreRequest {
    pub bucket: String,
    pub key: String,
    pub body: Vec<u8>,
    pub content_type: String,
    pub cache_control: String,
}

/// A `StoreRequest` as plain values.
pub struct StoreRequestView {
    pub bucket: Seq<char>,
    pub key: Seq<char>,
    pub body: Seq<u8>,
    pub content_type: Seq<char>,
    pub cache_control: Seq<char>,
}

impl View for StoreRequest {
    type V = StoreRequestView;

    open spec fn view(&self) -> StoreRequestView {
        StoreRequestView {
            bucket: self.bucket@,
            key: self.key@,
            body: self.body@,
            content_type: self.content_type@,
            cache_control: self.cache_control@,
        }
    }
}

/// The content type of everything that is stored.
pub open spec fn png_content_type() -> Seq<char> {
    "image/png"@
}

/// The cache directive of everything that is stored: public, for one year.
pub open spec fn one_year_cache_control() -> Seq<char> {
    "public, max-age=31536000"@
}

/// Why a record was given up.
#[derive(Clone, Debug)]
pub enum Skip {
    /// The record names no bucket or no key.
    MissingField,
    /// The object could not be read; the text is what storage said.
    Fetch { message: String },
    /// The object is not an image that can be decoded.
    Decode(DecodeError),
    /// The image could not be written as PNG.
    Encode(EncodeError),
    /// The PNG could not be written; the text is what storage said.
    Store { message: String },
}

/// A `Skip` without the wording of the codecs.
pub enum SkipView {
    MissingField,
    Fetch { message: Seq<char> },
    Decode,
    Encode { dimensions_fit: bool },
    Store { message: Seq<char> },
}

impl View for Skip {
    type V = SkipView;

    open spec fn view(&self) -> SkipView {
        match self {
            Skip::MissingField => SkipView::MissingField,
            Skip::Fetch { message } => SkipView::Fetch { message: message@ },
            Skip::Decode(_) => SkipView::Decode,
            Skip::Encode(error) => SkipView::Encode {
                dimensions_fit: !(error is InconsistentDimensions),
            },
            Skip::Store { message } => SkipView::Store { message: message@ },
        }
    }
}

/// How the handling of a record ended.
#[derive(Clone, Debug)]
pub enum Outcome {
    /// The PNG is stored under `destination_key`.
    Succeeded { destination_key: String, width: u32, height: u32 },
    /// Nothing was stored.
    Skipped(Skip),
}

/// An `Outcome` as plain values.
pub enum OutcomeView {
    Succeeded { destination_key: Seq<char>, width: u32, height: u32 },
    Skipped(SkipView),
}

impl View for Outcome {
    type V = OutcomeView;

    open spec fn view(&self) -> OutcomeView {
        match self {
            Outcome::Succeeded { destination_key, width, height } => OutcomeView::Succeeded {
                destination_key: destination_key@,
                width: *width,
                height: *height,
            },
            Outcome::Skipped(skip) => OutcomeView::Skipped(skip@),
        }
    }
}

/// A record whose object has been asked for.
#[derive(Clone, Debug)]
pub struct PendingFetch {
    request: FetchRequest,
    destination_bucket: String,
    named_bucket: String,
}

/// A `PendingFetch` as plain text.
pub struct PendingFetchView {
    pub request: FetchRequestView,
    /// Where the PNG will go.
    pub destination_bucket: Seq<char>,
    /// The bucket that the record names. It is kept for the log only.
    pub named_bucket: Seq<char>,
}

impl View for PendingFetch {
    type V = PendingFetchView;

    closed spec fn view(&self) -> PendingFetchView {
        PendingFetchView {
            request: self.request@,
            destination_bucket: self.destination_bucket@,
            named_bucket: self.named_bucket@,
        }
    }
}

/// A record whose PNG has been handed over for storing.
#[derive(Clone, Debug)]
pub struct PendingStore {
    request: StoreRequest,
    width: u32,
    height: u32,
}

/// A `PendingStore` as plain values.
pub struct PendingStoreView {
    pub request: StoreRequestView,
    pub width: u32,
    pub height: u32,
}

impl View for PendingStore {
    type V = PendingStoreView;

    closed spec fn view(&self) -> PendingStoreView {
        PendingStoreView { request: self.request@, width: self.width, height: self.height }
    }
}

/// Where the handling of a record stands.
#[derive(Clone, Debug)]
pub enum Step {
    /// The object is to be fetched.
    Fetch(PendingFetch),
    /// The PNG is to be stored.
    Store(PendingStore),
    /// The record is done with.
    Done(Outcome),
}

/// A `Step` as plain values.
pub enum StepView {
    Fetch(PendingFetchView),
    Store(PendingStoreView),
    Done(OutcomeView),
}

impl View for Step {
    type V = StepView;

    open spec fn view(&self) -> StepView {
        match self {
            Step::Fetch(pending) => StepView::Fetch(pending@),
            Step::Store(pending) => StepView::Store(pending@),
            Step::Done(outcome) => StepView::Done(outcome@),
        }
    }
}

/// What storage answered to a fetch: the object's bytes, or its complaint.
pub open spec fn fetched_view(fetched: Result<Vec<u8>, String>) -> Result<Seq<u8>, Seq<char>> {
    match fetched {
        Ok(bytes) => Ok(bytes@),
        Err(message) => Err(message@),
    }
}

/// What storage answered to a store: that it is done, or its complaint.
pub open spec fn stored_view(stored: Result<(), String>) -> Result<(), Seq<char>> {
    match stored {
        Ok(_) => Ok(()),
        Err(message) => Err(message@),
    }
}

/// The first stage of a record: given up at once where a field is missing,
/// else a fetch of its key from the source bucket. The bucket that the
/// record names is noted and nothing is read from it.
pub open spec fn first_step(config: ConfigView, record: RecordView) -> StepView {
    if record.bucket is Some && record.key is Some {
        StepView::Fetch(
            PendingFetchView {
                request: FetchRequestView { bucket: config.source_bucket, key: record.key->0 },
                destination_bucket: config.destination_bucket,
                named_bucket: record.bucket->0,
            },
        )
    } else {
        StepView::Done(OutcomeView::Skipped(SkipView::MissingField))
    }
}

/// The skip that a failed conversion comes to.
pub open spec fn conversion_skip(failure: Failure) -> SkipView {
    match failure {
        Failure::Undecodable => SkipView::Decode,
        Failure::InconsistentDimensions => SkipView::Encode { dimensions_fit: false },
        Failure::Unencodable => SkipView::Encode { dimensions_fit: true },
    }
}

/// The stage after a conversion: a store of the PNG in the destination
/// bucket, under the mapped key and with the fixed metadata, or the skip.
pub open spec fn step_after_conversion(
    pending: PendingFetchView,
    converted: Result<PngView, Failure>,
) -> StepView {
    match converted {
        Ok(png) => StepView::Store(
            PendingStoreView {
                request: StoreRequestView {
                    bucket: pending.destination_bucket,
                    key: mapped_key(pending.request.key),
                    body: png.bytes,
                    content_type: png_content_type(),
                    cache_control: one_year_cache_control(),
                },
                width: png.width,
                height: png.height,
            },
        ),
        Err(failure) => StepView::Done(OutcomeView::Skipped(conversion_skip(failure))),
    }
}

/// The stage after a fetch: the skip where it failed, else what the
/// conversion of the bytes leads to.
pub open spec fn step_after_fetch(
    pending: PendingFetchView,
    fetched: Result<Seq<u8>, Seq<char>>,
) -> StepView {
    match fetched {
        Ok(bytes) => step_after_conversion(pending, conversion(bytes)),
        Err(message) => StepView::Done(OutcomeView::Skipped(SkipView::Fetch { message })),
    }
}

/// The outcome after a store.
pub open spec fn outcome_after_store(
    pending: PendingStoreView,
    stored: Result<(), Seq<char>>,
) -> OutcomeView {
    match stored {
        Ok(_) => OutcomeView::Succeeded {
            destination_key: pending.request.key,
            width: pending.width,
            height: pending.height,
        },
        Err(message) => OutcomeView::Skipped(SkipView::Store { message }),
    }
}

/// Starts on a record.
pub fn begin(config: &Config, record: &NotificationRecord) -> (step: Step)
    ensures
        step@ == first_step(config@, record@),
{
    match (&record.bucket, &record.key) {
        (Some(bucket), Some(key)) => Step::Fetch(
            PendingFetch {
                request: FetchRequest { bucket: config.source_bucket.clone(), key: key.clone() },
                destination_bucket: config.destination_bucket.clone(),
                named_bucket: bucket.clone(),
            },
        ),
        _ => Step::Done(Outcome::Skipped(Skip::MissingField)),
    }
}

impl PendingFetch {
    /// What to ask storage for.
    pub fn request(&self) -> (request: &FetchRequest)
        ensures
            request@ == self@.request,
    {
        &self.request
    }

    /// The bucket that the record names. Nothing is read from it.
    pub fn named_bucket(&self) -> (bucket: &String)
        ensures
            bucket@ == self@.named_bucket,
    {
        &self.named_bucket
    }

    /// Goes on with what storage answered: converts the object and asks for
    /// the PNG to be stored, or gives the record up.
    pub fn resume(self, fetched: Result<Vec<u8>, String>) -> (step: Step)
        ensures
            step@ == step_after_fetch(self@, fetched_view(fetched)),
    {
        match fetched {
            Ok(bytes) => {
                let converted = convert(bytes.as_slice());
                self.resume_converted(converted)
            },
            Err(message) => Step::Done(Outcome::Skipped(Skip::Fetch { message })),
        }
    }

    /// Goes on with an object that has been through conversion. A failure
    /// is handed on as it came, wording included.
    pub fn resume_converted(self, converted: Result<EncodedPng, ConversionError>) -> (step: Step)
        ensures
            step@ == step_after_conversion(self@, converted_view(converted)),
            converted matches Err(ConversionError::Decode(error)) ==> step == Step::Done(
                Outcome::Skipped(Skip::Decode(error)),
            ),
            converted matches Err(ConversionError::Encode(error)) ==> step == Step::Done(
                Outcome::Skipped(Skip::Encode(error)),
            ),
    {
        match converted {
            Ok(png) => {
                let key = map_key(self.request.key.as_str());
                Step::Store(
                    PendingStore {
                        request: StoreRequest {
                            bucket: self.destination_bucket,
                            key,
                            body: png.bytes,
                            content_type: "image/png".to_owned(),
                            cache_control: "public, max-age=31536000".to_owned(),
                        },
                        width: png.width,
                        height: png.height,
                    },
                )
            },
            Err(ConversionError::Decode(error)) => Step::Done(
                Outcome::Skipped(Skip::Decode(error)),
            ),
            Err(ConversionError::Encode(error)) => Step::Done(
                Outcome::Skipped(Skip::Encode(error)),
            ),
        }
    }
}

impl PendingStore {
    /// What to ask storage for.
    pub fn request(&self) -> (request: &StoreRequest)
        ensures
            request@ == self@.request,
    {
        &self.request
    }

    /// The width of the picture that is being stored.
    pub fn width(&self) -> (width: u32)
        ensures
            width == self@.width,
    {
        self.width
    }

    /// The height of the picture that is being stored.
    pub fn height(&self) -> (height: u32)
        ensures
            height == self@.height,
    {
        self.height
    }

    /// Ends the record with what storage answered.
    pub fn resume(self, stored: Result<(), String>) -> (outcome: Outcome)
        ensures
            outcome@ == outcome_after_store(self@, stored_view(stored)),
    {
        match stored {
            Ok(_) => Outcome::Succeeded {
                destination_key: self.request.key,
                width: self.width,
                height: self.height,
            },
            Err(message) => Outcome::Skipped(Skip::Store { message }),
        }
    }
}

} // verus!
