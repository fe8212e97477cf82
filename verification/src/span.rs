//! Spans, and the sink that takes them for the telemetry pipeline.

use crate::error::AppError;
use crate::error::SerializationFault;
use vstd::prelude::*;

verus! {

/// Record name of a generic measurement.
pub const DATA: &'static str = "data";

/// Record name of one GPS point.
pub const GPS_LOCATION: &'static str = "gps-location";

/// Field that carries the serialized payload of a `data` span.
pub const PAYLOAD: &'static str = "payload";

/// Field that carries the serialized point of a `gps-location` span.
pub const LOCATION: &'static str = "location";

/// The two records the gateway emits.
#[derive(Clone, Copy, Debug, PartialEq, Eq, Structural)]
pub enum SpanName {
    Data,
    GpsLocation,
}

impl SpanName {
    /// The fixed name a record is tagged with.
    pub open spec fn text(self) -> Seq<char> {
        match self {
            SpanName::Data => DATA@,
            SpanName::GpsLocation => GPS_LOCATION@,
        }
    }

    /// The name of the field that holds the serialized body.
    pub open spec fn body_text(self) -> Seq<char> {
        match self {
            SpanName::Data => PAYLOAD@,
            SpanName::GpsLocation => LOCATION@,
        }
    }

    /// The fixed name a record is tagged with.
    pub fn as_str(self) -> (name: &'static str)
        ensures
            name@ == self.text(),
    {
        match self {
            SpanName::Data => DATA,
            SpanName::GpsLocation => GPS_LOCATION,
        }
    }

    /// The name of the field that holds the serialized body.
    pub fn body_field(self) -> (name: &'static str)
        ensures
            name@ == self.body_text(),
    {
        match self {
            SpanName::Data => PAYLOAD,
            SpanName::GpsLocation => LOCATION,
        }
    }
}

/// One structured telemetry record.
#[derive(Debug)]
pub struct Span {
    pub name: SpanName,
    pub bucket: String,
    pub timestamp: Option<String>,
    pub body: String,
}

/// A span as contracts speak of it.
pub struct SpanView {
    pub name: SpanName,
    pub bucket: Seq<char>,
    pub timestamp: Option<Seq<char>>,
    pub body: Seq<char>,
}

impl View for Span {
    type V = SpanView;

    open spec fn view(&self) -> SpanView {
        SpanView {
            name: self.name,
            bucket: self.bucket@,
            timestamp: match self.timestamp {
                Some(text) => Some(text@),
                None => None,
            },
            body: self.body@,
        }
    }
}

/// The `data` span of a measurement.
pub open spec fn data_span(bucket: Seq<char>, timestamp: Seq<char>, payload: Seq<char>) -> SpanView {
    SpanView { name: SpanName::Data, bucket, timestamp: Some(timestamp), body: payload }
}

/// The `gps-location` span of one point.
pub open spec fn gps_span(bucket: Seq<char>, location: Seq<char>) -> SpanView {
    SpanView { name: SpanName::GpsLocation, bucket, timestamp: None, body: location }
}

/// The queue between the routes and the telemetry pipeline. A span pushed
/// here has been handed over: nothing in this crate takes one back.
#[derive(Debug)]
pub struct SpanSink {
    spans: Vec<Span>,
}

impl View for SpanSink {
    type V = Seq<SpanView>;

    closed spec fn view(&self) -> Seq<SpanView> {
        Seq::new(self.spans@.len(), |i: int| self.spans@[i]@)
    }
}

impl SpanSink {
    /// A sink that holds nothing yet.
    pub fn new() -> (sink: SpanSink)
        ensures
            sink@ == Seq::<SpanView>::empty(),
    {
        let sink = SpanSink { spans: Vec::new() };
        assert(sink@ =~= Seq::<SpanView>::empty());
        sink
    }

    /// Number of spans handed over so far.
    pub fn len(&self) -> (count: usize)
        ensures
            count == self@.len(),
    {
        self.spans.len()
    }

    /// The spans handed over so far, oldest first.
    pub fn spans(&self) -> (spans: &Vec<Span>)
        ensures
            spans@.len() == self@.len(),
            forall|i: int| 0 <= i < spans@.len() ==> (#[trigger] spans@[i])@ == self@[i],
    {
        &self.spans
    }

    /// Gives the spans up to whoever forwards them, oldest first.
    pub fn into_spans(self) -> (spans: Vec<Span>)
        ensures
            spans@.len() == self@.len(),
            forall|i: int| 0 <= i < spans@.len() ==> (#[trigger] spans@[i])@ == self@[i],
    {
        self.spans
    }

    /// Hands one record to the sink, given what serializing its body came to.
    ///
    /// A body that was serialized becomes exactly one span, after those
    /// already handed over, bearing the name, bucket, timestamp and text
    /// given. A body that failed to serialize is reported as that failure and
    /// leaves the sink as it was.
    pub fn emit(
        &mut self,
        name: SpanName,
        bucket: &str,
        timestamp: Option<String>,
        serialized: Result<String, serde_json::Error>,
    ) -> (emitted: Result<(), AppError>)
        ensures
            match serialized {
                Ok(text) => {
                    &&& emitted is Ok
                    &&& final(self)@ == old(self)@.push(
                        (SpanView {
                            name,
                            bucket: bucket@,
                            timestamp: match timestamp {
                                Some(instant) => Some(instant@),
                                None => None,
                            },
                            body: text@,
                        }),
                    )
                },
                Err(cause) => {
                    &&& emitted == Err::<(), AppError>(
                        AppError::SerializationFailure(SerializationFault::Payload(cause)),
                    )
                    &&& final(self)@ == old(self)@
                },
            },
    {
        match serialized {
            Ok(text) => {
                let span = Span { name, bucket: bucket.to_owned(), timestamp, body: text };
                self.spans.push(span);
                assert(self@ =~= old(self)@.push(span@));
                Ok(())
            },
            Err(cause) => Err(AppError::from(cause)),
        }
    }
}

} // verus!
