//! The published sheet, the response that serves it and the report of it.

use crate::text::{decimal, push_decimal};
use vstd::prelude::*;

verus! {

/// A compiled style sheet, ready to be served: the compiled text, the cache
/// lifetime in seconds that goes out with it, and the path of its source.
/// Once made it never changes.
#[derive(Debug, PartialEq, Eq)]
pub struct SassSheet {
    content: String,
    cache_max_age: u32,
    path: String,
}

/// A `SassSheet` as plain values.
pub struct SassSheetView {
    pub content: Seq<char>,
    pub cache_max_age: nat,
    pub path: Seq<char>,
}

impl View for SassSheet {
    type V = SassSheetView;

    closed spec fn view(&self) -> SassSheetView {
        SassSheetView {
            content: self.content@,
            cache_max_age: self.cache_max_age as nat,
            path: self.path@,
        }
    }
}

/// One header of a response.
#[derive(Debug, PartialEq, Eq)]
pub struct Header {
    pub name: String,
    pub value: String,
}

/// A `Header` as plain values.
pub struct HeaderView {
    pub name: Seq<char>,
    pub value: Seq<char>,
}

impl View for Header {
    type V = HeaderView;

    open spec fn view(&self) -> HeaderView {
        HeaderView { name: self.name@, value: self.value@ }
    }
}

/// The response to a request for the sheet: the status, every header that the
/// sheet adds, in order, and the body, which is the sheet's own text.
#[derive(Debug, PartialEq, Eq)]
pub struct SheetResponse<'a> {
    pub status: u16,
    pub headers: Vec<Header>,
    pub body: &'a str,
}

/// A `SheetResponse` as plain values.
pub struct SheetResponseView {
    pub status: nat,
    pub headers: Seq<HeaderView>,
    pub body: Seq<char>,
}

impl<'a> View for SheetResponse<'a> {
    type V = SheetResponseView;

    open spec fn view(&self) -> SheetResponseView {
        SheetResponseView {
            status: self.status as nat,
            headers: self.headers@.map_values(|header: Header| header@),
            body: self.body@,
        }
    }
}

/// What is logged once the sheet is published and the host is ready.
#[derive(Debug, PartialEq, Eq)]
pub struct LiftoffReport {
    pub heading: String,
    pub sheet_path: String,
    pub cache_max_age: String,
}

/// A `LiftoffReport` as plain values.
pub struct LiftoffReportView {
    pub heading: Seq<char>,
    pub sheet_path: Seq<char>,
    pub cache_max_age: Seq<char>,
}

impl View for LiftoffReport {
    type V = LiftoffReportView;

    open spec fn view(&self) -> LiftoffReportView {
        LiftoffReportView {
            heading: self.heading@,
            sheet_path: self.sheet_path@,
            cache_max_age: self.cache_max_age@,
        }
    }
}

/// The caching directive for a lifetime of `seconds`.
pub open spec fn max_age_directive(seconds: nat) -> Seq<char> {
    "max-age="@ + decimal(seconds)
}

/// The response that serves `sheet`: success, the style sheet media type, the
/// caching directive, and the compiled text as it is.
pub open spec fn rendered(sheet: SassSheetView) -> SheetResponseView {
    SheetResponseView {
        status: 200,
        headers: seq![
            HeaderView { name: "Content-Type"@, value: "text/css; charset=utf-8"@ },
            HeaderView { name: "Cache-Control"@, value: max_age_directive(sheet.cache_max_age) },
        ],
        body: sheet.content,
    }
}

/// The report of `sheet` at liftoff.
pub open spec fn reported(sheet: SassSheetView) -> LiftoffReportView {
    LiftoffReportView {
        heading: "Assets"@,
        sheet_path: "sheet path: "@ + sheet.path,
        cache_max_age: "cache max age: "@ + decimal(sheet.cache_max_age),
    }
}

impl SassSheet {
    /// A sheet of the compiled text `content`, served with a cache lifetime of
    /// `cache_max_age` seconds, whose source is at `path`.
    pub fn new(content: String, cache_max_age: u32, path: String) -> (sheet: SassSheet)
        ensures
            sheet@ == (SassSheetView {
                content: content@,
                cache_max_age: cache_max_age as nat,
                path: path@,
            }),
    {
        SassSheet { content, cache_max_age, path }
    }

    /// The value of the `Cache-Control` header that goes out with the sheet.
    pub fn cache_control(&self) -> (directive: String)
        ensures
            directive@ == max_age_directive(self@.cache_max_age),
    {
        let mut directive = String::from_str("max-age=");
        push_decimal(&mut directive, self.cache_max_age);
        directive
    }

    /// Builds the response to a request for the sheet. The body is the
    /// compiled text, untouched; the only headers are the content type and
    /// the caching directive. Nothing but the sheet goes into it, so asking
    /// again gives the same response.
    pub fn render(&self) -> (response: SheetResponse<'_>)
        ensures
            response@ == rendered(self@),
    {
        let mut headers: Vec<Header> = Vec::new();
        headers.push(
            Header {
                name: String::from_str("Content-Type"),
                value: String::from_str("text/css; charset=utf-8"),
            },
        );
        headers.push(
            Header { name: String::from_str("Cache-Control"), value: self.cache_control() },
        );
        let response = SheetResponse { status: 200, headers, body: self.content.as_str() };
        assert(response@.headers =~= rendered(self@).headers);
        response
    }

    /// What to log once the sheet is published: where its source is and how
    /// long it may be cached.
    pub fn liftoff_report(&self) -> (report: LiftoffReport)
        ensures
            report@ == reported(self@),
    {
        let mut sheet_path = String::from_str("sheet path: ");
        sheet_path.append(self.path.as_str());
        let mut cache_max_age = String::from_str("cache max age: ");
        push_decimal(&mut cache_max_age, self.cache_max_age);
        LiftoffReport { heading: String::from_str("Assets"), sheet_path, cache_max_age }
    }

    /// The compiled text.
    pub fn content(&self) -> (content: &str)
        ensures
            content@ == self@.content,
    {
        self.content.as_str()
    }

    /// The cache lifetime, in seconds.
    pub fn cache_max_age(&self) -> (seconds: u32)
        ensures
            seconds as nat == self@.cache_max_age,
    {
        self.cache_max_age
    }

    /// The path of the sheet's source.
    pub fn path(&self) -> (path: &str)
        ensures
            path@ == self@.path,
    {
        self.path.as_str()
    }
}

/// Rendering is a function of the sheet: two responses to requests for the
/// same sheet have the same status, the same headers and the same body.
pub proof fn render_twice_same(
    sheet: SassSheetView,
    first: SheetResponseView,
    second: SheetResponseView,
)
    requires
        first == rendered(sheet),
        second == rendered(sheet),
    ensures
        first.status == second.status,
        first.headers == second.headers,
        first.body == second.body,
{
}

} // verus!
