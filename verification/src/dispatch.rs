//! A signed request as it goes on the wire: address, method, timeout and the
//! eight headers that the service reads.

use vstd::prelude::*;

verus! {

/// One header: its name and its value.
#[derive(Clone, Debug, PartialEq, Eq)]
pub struct Header {
    pub name: String,
    pub value: String,
}

/// What a [`Header`] holds, as mathematical values.
pub struct HeaderView {
    pub name: Seq<char>,
    pub value: Seq<char>,
}

impl View for Header {
    type V = HeaderView;

    open spec fn view(&self) -> HeaderView {
        HeaderView { name: self.name@, value: self.value@ }
    }
}

/// The values of the headers of a signed request.
#[derive(Clone, Debug)]
pub struct RequestHeaders {
    pub action: String,
    pub region: String,
    pub timestamp: String,
    pub version: String,
    pub language: String,
    pub content_type: String,
    pub host: String,
    pub authorization: String,
}

/// What [`RequestHeaders`] hold, as mathematical values.
pub struct RequestHeadersView {
    pub action: Seq<char>,
    pub region: Seq<char>,
    pub timestamp: Seq<char>,
    pub version: Seq<char>,
    pub language: Seq<char>,
    pub content_type: Seq<char>,
    pub host: Seq<char>,
    pub authorization: Seq<char>,
}

impl View for RequestHeaders {
    type V = RequestHeadersView;

    open spec fn view(&self) -> RequestHeadersView {
        RequestHeadersView {
            action: self.action@,
            region: self.region@,
            timestamp: self.timestamp@,
            version: self.version@,
            language: self.language@,
            content_type: self.content_type@,
            host: self.host@,
            authorization: self.authorization@,
        }
    }
}

impl RequestHeaders {
    /// The headers by name, in the order in which they are sent.
    pub open spec fn spec_entries(headers: RequestHeadersView) -> Seq<HeaderView> {
        seq![
            HeaderView { name: "X-TC-Action"@, value: headers.action },
            HeaderView { name: "X-TC-Region"@, value: headers.region },
            HeaderView { name: "X-TC-Timestamp"@, value: headers.timestamp },
            HeaderView { name: "X-TC-Version"@, value: headers.version },
            HeaderView { name: "X-TC-Language"@, value: headers.language },
            HeaderView { name: "Content-Type"@, value: headers.content_type },
            HeaderView { name: "Host"@, value: headers.host },
            HeaderView { name: "Authorization"@, value: headers.authorization },
        ]
    }

    /// Lists the headers under their names, in the order in which they are
    /// sent.
    pub fn entries(&self) -> (entries: Vec<Header>)
        ensures
            entries@.map_values(|header: Header| header@) == Self::spec_entries(self@),
    {
        let mut entries: Vec<Header> = Vec::new();
        entries.push(Header { name: "X-TC-Action".to_owned(), value: self.action.clone() });
        entries.push(Header { name: "X-TC-Region".to_owned(), value: self.region.clone() });
        entries.push(Header { name: "X-TC-Timestamp".to_owned(), value: self.timestamp.clone() });
        entries.push(Header { name: "X-TC-Version".to_owned(), value: self.version.clone() });
        entries.push(Header { name: "X-TC-Language".to_owned(), value: self.language.clone() });
        entries.push(
            Header { name: "Content-Type".to_owned(), value: self.content_type.clone() },
        );
        entries.push(Header { name: "Host".to_owned(), value: self.host.clone() });
        entries.push(
            Header { name: "Authorization".to_owned(), value: self.authorization.clone() },
        );
        assert(entries@.map_values(|header: Header| header@) =~= Self::spec_entries(self@));
        entries
    }
}

/// A request made ready for the wire: where to send it, how, for how long to
/// wait, and under which headers, with the two texts that the signature was
/// computed from.
#[derive(Clone, Debug)]
pub struct PreparedRequest {
    pub method: String,
    pub url: String,
    pub timeout_secs: u64,
    pub headers: RequestHeaders,
    pub canonical_request: String,
    pub string_to_sign: String,
}

/// What a [`PreparedRequest`] holds, as mathematical values.
pub struct PreparedRequestView {
    pub method: Seq<char>,
    pub url: Seq<char>,
    pub timeout_secs: nat,
    pub headers: RequestHeadersView,
    pub canonical_request: Seq<char>,
    pub string_to_sign: Seq<char>,
}

impl View for PreparedRequest {
    type V = PreparedRequestView;

    open spec fn view(&self) -> PreparedRequestView {
        PreparedRequestView {
            method: self.method@,
            url: self.url@,
            timeout_secs: self.timeout_secs as nat,
            headers: self.headers@,
            canonical_request: self.canonical_request@,
            string_to_sign: self.string_to_sign@,
        }
    }
}

} // verus!
