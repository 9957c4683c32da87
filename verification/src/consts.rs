//! The vocabulary of the parser: message kinds, request methods, error
//! kinds, and the names that the grammar compares tokens with.

use vstd::prelude::*;
use crate::lexer::{all_tokens_upto, bytes_of, is_token_string, pack, pack_upto};

verus! {

/// Which messages a parser accepts; fixed when the parser is initialised.
#[allow(non_camel_case_types)]
#[derive(Clone, Copy, Debug, PartialEq, Eq, Structural)]
pub enum Type {
    /// Requests and responses: the first line decides.
    HTTP_BOTH,
    HTTP_REQUEST,
    HTTP_RESPONSE,
}

/// The request methods that the start line recognises.
#[allow(non_camel_case_types)]
#[derive(Clone, Copy, Debug, PartialEq, Eq, Structural)]
pub enum Method {
    HTTP_DELETE,
    HTTP_GET,
    HTTP_HEAD,
    HTTP_POST,
    HTTP_PUT,
    HTTP_CONNECT,
    HTTP_OPTIONS,
    HTTP_TRACE,
    HTTP_COPY,
    HTTP_LOCK,
    HTTP_MKCOL,
    HTTP_MOVE,
    HTTP_PROPFIND,
    HTTP_PROPPATCH,
    HTTP_SEARCH,
    HTTP_UNLOCK,
    HTTP_BIND,
    HTTP_REBIND,
    HTTP_UNBIND,
    HTTP_ACL,
    HTTP_REPORT,
    HTTP_MKACTIVITY,
    HTTP_CHECKOUT,
    HTTP_MERGE,
    HTTP_MSEARCH,
    HTTP_NOTIFY,
    HTTP_SUBSCRIBE,
    HTTP_UNSUBSCRIBE,
    HTTP_PATCH,
    HTTP_PURGE,
    HTTP_MKCALENDAR,
    HTTP_LINK,
    HTTP_UNLINK,
    HTTP_SOURCE,
}

/// Why a parser stopped. `HPE_OK` means that it has not stopped. The two
/// `HPE_PAUSED*` kinds are lifted by the matching resume operation, every
/// other kind only by a reset.
#[allow(non_camel_case_types)]
#[derive(Clone, Copy, Debug, PartialEq, Eq, Structural)]
pub enum Error {
    HPE_OK,
    HPE_PAUSED,
    HPE_PAUSED_UPGRADE,
    HPE_INVALID_METHOD,
    HPE_INVALID_URL,
    HPE_INVALID_CONSTANT,
    HPE_INVALID_VERSION,
    HPE_INVALID_STATUS,
    HPE_INVALID_HEADER_TOKEN,
    HPE_HEADER_OVERFLOW,
    HPE_INVALID_CONTENT_LENGTH,
    HPE_UNEXPECTED_CONTENT_LENGTH,
    HPE_AMBIGUOUS_BODY_LENGTH,
    HPE_INVALID_TRANSFER_ENCODING,
    HPE_INVALID_CHUNK_SIZE,
    HPE_CHUNK_TOO_LARGE,
    HPE_CR_EXPECTED,
    HPE_LF_EXPECTED,
    HPE_CLOSED_CONNECTION,
    HPE_INVALID_EOF_STATE,
    HPE_UNEXPECTED_EOF,
    HPE_CB_MESSAGE_BEGIN,
    HPE_CB_URL_COMPLETE,
    HPE_CB_STATUS_COMPLETE,
    HPE_CB_HEADER_FIELD_COMPLETE,
    HPE_CB_HEADER_VALUE_COMPLETE,
    HPE_CB_HEADERS_COMPLETE,
    HPE_CB_MESSAGE_COMPLETE,
    HPE_CB_CHUNK_HEADER,
    HPE_CB_CHUNK_COMPLETE,
    HPE_USER,
}

/// `HTTP`, packed.
pub const TOKEN_HTTP: u128 = 0x9152a50;

/// `content-length`, packed.
pub const TOKEN_CONTENT_LENGTH: u128 = 0x31efddd32eee8b7665dd9fa68;

/// `transfer-encoding`, packed.
pub const TOKEN_TRANSFER_ENCODING: u128 = 0x74e587773cd9792dcbbb1efc9a7767;

/// `connection`, packed.
pub const TOKEN_CONNECTION: u128 = 0x31efddbb2e3e9a77ee;

/// `upgrade`, packed.
pub const TOKEN_UPGRADE: u128 = 0x1d7867e587265;

/// `chunked`, packed.
pub const TOKEN_CHUNKED: u128 = 0x18f475ddaf2e4;

/// `close`, packed.
pub const TOKEN_CLOSE: u128 = 0x63d9bf9e5;

/// `keep-alive`, packed.
pub const TOKEN_KEEP_ALIVE: u128 = 0x35e5cbc16e1d9a7b65;

impl Method {
    /// The method's name as it stands on the request line.
    pub open spec fn spec_name(self) -> Seq<char> {
        match self {
            Method::HTTP_DELETE => "DELETE"@,
            Method::HTTP_GET => "GET"@,
            Method::HTTP_HEAD => "HEAD"@,
            Method::HTTP_POST => "POST"@,
            Method::HTTP_PUT => "PUT"@,
            Method::HTTP_CONNECT => "CONNECT"@,
            Method::HTTP_OPTIONS => "OPTIONS"@,
            Method::HTTP_TRACE => "TRACE"@,
            Method::HTTP_COPY => "COPY"@,
            Method::HTTP_LOCK => "LOCK"@,
            Method::HTTP_MKCOL => "MKCOL"@,
            Method::HTTP_MOVE => "MOVE"@,
            Method::HTTP_PROPFIND => "PROPFIND"@,
            Method::HTTP_PROPPATCH => "PROPPATCH"@,
            Method::HTTP_SEARCH => "SEARCH"@,
            Method::HTTP_UNLOCK => "UNLOCK"@,
            Method::HTTP_BIND => "BIND"@,
            Method::HTTP_REBIND => "REBIND"@,
            Method::HTTP_UNBIND => "UNBIND"@,
            Method::HTTP_ACL => "ACL"@,
            Method::HTTP_REPORT => "REPORT"@,
            Method::HTTP_MKACTIVITY => "MKACTIVITY"@,
            Method::HTTP_CHECKOUT => "CHECKOUT"@,
            Method::HTTP_MERGE => "MERGE"@,
            Method::HTTP_MSEARCH => "M-SEARCH"@,
            Method::HTTP_NOTIFY => "NOTIFY"@,
            Method::HTTP_SUBSCRIBE => "SUBSCRIBE"@,
            Method::HTTP_UNSUBSCRIBE => "UNSUBSCRIBE"@,
            Method::HTTP_PATCH => "PATCH"@,
            Method::HTTP_PURGE => "PURGE"@,
            Method::HTTP_MKCALENDAR => "MKCALENDAR"@,
            Method::HTTP_LINK => "LINK"@,
            Method::HTTP_UNLINK => "UNLINK"@,
            Method::HTTP_SOURCE => "SOURCE"@,
        }
    }

    /// The method's name.
    pub fn name(self) -> (r: &'static str)
        ensures
            r@ == self.spec_name(),
    {
        match self {
            Method::HTTP_DELETE => "DELETE",
            Method::HTTP_GET => "GET",
            Method::HTTP_HEAD => "HEAD",
            Method::HTTP_POST => "POST",
            Method::HTTP_PUT => "PUT",
            Method::HTTP_CONNECT => "CONNECT",
            Method::HTTP_OPTIONS => "OPTIONS",
            Method::HTTP_TRACE => "TRACE",
            Method::HTTP_COPY => "COPY",
            Method::HTTP_LOCK => "LOCK",
            Method::HTTP_MKCOL => "MKCOL",
            Method::HTTP_MOVE => "MOVE",
            Method::HTTP_PROPFIND => "PROPFIND",
            Method::HTTP_PROPPATCH => "PROPPATCH",
            Method::HTTP_SEARCH => "SEARCH",
            Method::HTTP_UNLOCK => "UNLOCK",
            Method::HTTP_BIND => "BIND",
            Method::HTTP_REBIND => "REBIND",
            Method::HTTP_UNBIND => "UNBIND",
            Method::HTTP_ACL => "ACL",
            Method::HTTP_REPORT => "REPORT",
            Method::HTTP_MKACTIVITY => "MKACTIVITY",
            Method::HTTP_CHECKOUT => "CHECKOUT",
            Method::HTTP_MERGE => "MERGE",
            Method::HTTP_MSEARCH => "M-SEARCH",
            Method::HTTP_NOTIFY => "NOTIFY",
            Method::HTTP_SUBSCRIBE => "SUBSCRIBE",
            Method::HTTP_UNSUBSCRIBE => "UNSUBSCRIBE",
            Method::HTTP_PATCH => "PATCH",
            Method::HTTP_PURGE => "PURGE",
            Method::HTTP_MKCALENDAR => "MKCALENDAR",
            Method::HTTP_LINK => "LINK",
            Method::HTTP_UNLINK => "UNLINK",
            Method::HTTP_SOURCE => "SOURCE",
        }
    }

    /// The method's name, packed: what the first token of a request line
    /// is compared with.
    pub open spec fn spec_code(self) -> u128 {
        match self {
            Method::HTTP_DELETE => 0x22459916a45u128,
            Method::HTTP_GET => 0x11e2d4u128,
            Method::HTTP_HEAD => 0x91160c4u128,
            Method::HTTP_POST => 0xa13e9d4u128,
            Method::HTTP_PUT => 0x142ad4u128,
            Method::HTTP_CONNECT => 0x10e7ce9d161d4u128,
            Method::HTTP_OPTIONS => 0x13e854933e753u128,
            Method::HTTP_TRACE => 0x54a5061c5u128,
            Method::HTTP_COPY => 0x873e859u128,
            Method::HTTP_LOCK => 0x993e1cbu128,
            Method::HTTP_MKCOL => 0x4d970e7ccu128,
            Method::HTTP_MOVE => 0x9b3eb45u128,
            Method::HTTP_PROPFIND => 0xa14a7d08d26744u128,
            Method::HTTP_PROPPATCH => 0x50a53e85083521c8u128,
            Method::HTTP_SEARCH => 0x29c5834a1c8u128,
            Method::HTTP_UNLOCK => 0x2ace993e1cbu128,
            Method::HTTP_BIND => 0x8526744u128,
            Method::HTTP_REBIND => 0x29458526744u128,
            Method::HTTP_UNBIND => 0x2ace8526744u128,
            Method::HTTP_ACL => 0x1061ccu128,
            Method::HTTP_REPORT => 0x2945a13e954u128,
            Method::HTTP_MKACTIVITY => 0x26cb830ea49ad26a59u128,
            Method::HTTP_CHECKOUT => 0x87222c3973ead4u128,
            Method::HTTP_MERGE => 0x4d8b4a3c5u128,
            Method::HTTP_MSEARCH => 0x9ab69c5834a1c8u128,
            Method::HTTP_NOTIFY => 0x274fa926359u128,
            Method::HTTP_SUBSCRIBE => 0x53ab0a9c3a526145u128,
            Method::HTTP_UNSUBSCRIBE => 0x156753ab0a9c3a526145u128,
            Method::HTTP_PATCH => 0x5083521c8u128,
            Method::HTTP_PURGE => 0x50ab4a3c5u128,
            Method::HTTP_MKCALENDAR => 0x26cb87066459d120d2u128,
            Method::HTTP_LINK => 0x992674bu128,
            Method::HTTP_UNLINK => 0x2ace992674bu128,
            Method::HTTP_SOURCE => 0x29cfab4a1c5u128,
        }
    }

    /// Computes `spec_code`.
    #[verifier::when_used_as_spec(spec_code)]
    pub fn code(self) -> (r: u128)
        ensures
            r == self.spec_code(),
    {
        match self {
            Method::HTTP_DELETE => 0x22459916a45u128,
            Method::HTTP_GET => 0x11e2d4u128,
            Method::HTTP_HEAD => 0x91160c4u128,
            Method::HTTP_POST => 0xa13e9d4u128,
            Method::HTTP_PUT => 0x142ad4u128,
            Method::HTTP_CONNECT => 0x10e7ce9d161d4u128,
            Method::HTTP_OPTIONS => 0x13e854933e753u128,
            Method::HTTP_TRACE => 0x54a5061c5u128,
            Method::HTTP_COPY => 0x873e859u128,
            Method::HTTP_LOCK => 0x993e1cbu128,
            Method::HTTP_MKCOL => 0x4d970e7ccu128,
            Method::HTTP_MOVE => 0x9b3eb45u128,
            Method::HTTP_PROPFIND => 0xa14a7d08d26744u128,
            Method::HTTP_PROPPATCH => 0x50a53e85083521c8u128,
            Method::HTTP_SEARCH => 0x29c5834a1c8u128,
            Method::HTTP_UNLOCK => 0x2ace993e1cbu128,
            Method::HTTP_BIND => 0x8526744u128,
            Method::HTTP_REBIND => 0x29458526744u128,
            Method::HTTP_UNBIND => 0x2ace8526744u128,
            Method::HTTP_ACL => 0x1061ccu128,
            Method::HTTP_REPORT => 0x2945a13e954u128,
            Method::HTTP_MKACTIVITY => 0x26cb830ea49ad26a59u128,
            Method::HTTP_CHECKOUT => 0x87222c3973ead4u128,
            Method::HTTP_MERGE => 0x4d8b4a3c5u128,
            Method::HTTP_MSEARCH => 0x9ab69c5834a1c8u128,
            Method::HTTP_NOTIFY => 0x274fa926359u128,
            Method::HTTP_SUBSCRIBE => 0x53ab0a9c3a526145u128,
            Method::HTTP_UNSUBSCRIBE => 0x156753ab0a9c3a526145u128,
            Method::HTTP_PATCH => 0x5083521c8u128,
            Method::HTTP_PURGE => 0x50ab4a3c5u128,
            Method::HTTP_MKCALENDAR => 0x26cb87066459d120d2u128,
            Method::HTTP_LINK => 0x992674bu128,
            Method::HTTP_UNLINK => 0x2ace992674bu128,
            Method::HTTP_SOURCE => 0x29cfab4a1c5u128,
        }
    }

    /// The method whose packed name is `code`, if there is one.
    pub open spec fn spec_from_code(code: u128) -> Option<Method> {
        if code == Method::HTTP_DELETE.code() {
            Some(Method::HTTP_DELETE)
        } else if code == Method::HTTP_GET.code() {
            Some(Method::HTTP_GET)
        } else if code == Method::HTTP_HEAD.code() {
            Some(Method::HTTP_HEAD)
        } else if code == Method::HTTP_POST.code() {
            Some(Method::HTTP_POST)
        } else if code == Method::HTTP_PUT.code() {
            Some(Method::HTTP_PUT)
        } else if code == Method::HTTP_CONNECT.code() {
            Some(Method::HTTP_CONNECT)
        } else if code == Method::HTTP_OPTIONS.code() {
            Some(Method::HTTP_OPTIONS)
        } else if code == Method::HTTP_TRACE.code() {
            Some(Method::HTTP_TRACE)
        } else if code == Method::HTTP_COPY.code() {
            Some(Method::HTTP_COPY)
        } else if code == Method::HTTP_LOCK.code() {
            Some(Method::HTTP_LOCK)
        } else if code == Method::HTTP_MKCOL.code() {
            Some(Method::HTTP_MKCOL)
        } else if code == Method::HTTP_MOVE.code() {
            Some(Method::HTTP_MOVE)
        } else if code == Method::HTTP_PROPFIND.code() {
            Some(Method::HTTP_PROPFIND)
        } else if code == Method::HTTP_PROPPATCH.code() {
            Some(Method::HTTP_PROPPATCH)
        } else if code == Method::HTTP_SEARCH.code() {
            Some(Method::HTTP_SEARCH)
        } else if code == Method::HTTP_UNLOCK.code() {
            Some(Method::HTTP_UNLOCK)
        } else if code == Method::HTTP_BIND.code() {
            Some(Method::HTTP_BIND)
        } else if code == Method::HTTP_REBIND.code() {
            Some(Method::HTTP_REBIND)
        } else if code == Method::HTTP_UNBIND.code() {
            Some(Method::HTTP_UNBIND)
        } else if code == Method::HTTP_ACL.code() {
            Some(Method::HTTP_ACL)
        } else if code == Method::HTTP_REPORT.code() {
            Some(Method::HTTP_REPORT)
        } else if code == Method::HTTP_MKACTIVITY.code() {
            Some(Method::HTTP_MKACTIVITY)
        } else if code == Method::HTTP_CHECKOUT.code() {
            Some(Method::HTTP_CHECKOUT)
        } else if code == Method::HTTP_MERGE.code() {
            Some(Method::HTTP_MERGE)
        } else if code == Method::HTTP_MSEARCH.code() {
            Some(Method::HTTP_MSEARCH)
        } else if code == Method::HTTP_NOTIFY.code() {
            Some(Method::HTTP_NOTIFY)
        } else if code == Method::HTTP_SUBSCRIBE.code() {
            Some(Method::HTTP_SUBSCRIBE)
        } else if code == Method::HTTP_UNSUBSCRIBE.code() {
            Some(Method::HTTP_UNSUBSCRIBE)
        } else if code == Method::HTTP_PATCH.code() {
            Some(Method::HTTP_PATCH)
        } else if code == Method::HTTP_PURGE.code() {
            Some(Method::HTTP_PURGE)
        } else if code == Method::HTTP_MKCALENDAR.code() {
            Some(Method::HTTP_MKCALENDAR)
        } else if code == Method::HTTP_LINK.code() {
            Some(Method::HTTP_LINK)
        } else if code == Method::HTTP_UNLINK.code() {
            Some(Method::HTTP_UNLINK)
        } else if code == Method::HTTP_SOURCE.code() {
            Some(Method::HTTP_SOURCE)
        } else {
            None
        }
    }

    /// Computes `spec_from_code`.
    #[verifier::when_used_as_spec(spec_from_code)]
    pub fn from_code(code: u128) -> (r: Option<Method>)
        ensures
            r == Method::spec_from_code(code),
    {
        if code == Method::HTTP_DELETE.code() {
            Some(Method::HTTP_DELETE)
        } else if code == Method::HTTP_GET.code() {
            Some(Method::HTTP_GET)
        } else if code == Method::HTTP_HEAD.code() {
            Some(Method::HTTP_HEAD)
        } else if code == Method::HTTP_POST.code() {
            Some(Method::HTTP_POST)
        } else if code == Method::HTTP_PUT.code() {
            Some(Method::HTTP_PUT)
        } else if code == Method::HTTP_CONNECT.code() {
            Some(Method::HTTP_CONNECT)
        } else if code == Method::HTTP_OPTIONS.code() {
            Some(Method::HTTP_OPTIONS)
        } else if code == Method::HTTP_TRACE.code() {
            Some(Method::HTTP_TRACE)
        } else if code == Method::HTTP_COPY.code() {
            Some(Method::HTTP_COPY)
        } else if code == Method::HTTP_LOCK.code() {
            Some(Method::HTTP_LOCK)
        } else if code == Method::HTTP_MKCOL.code() {
            Some(Method::HTTP_MKCOL)
        } else if code == Method::HTTP_MOVE.code() {
            Some(Method::HTTP_MOVE)
        } else if code == Method::HTTP_PROPFIND.code() {
            Some(Method::HTTP_PROPFIND)
        } else if code == Method::HTTP_PROPPATCH.code() {
            Some(Method::HTTP_PROPPATCH)
        } else if code == Method::HTTP_SEARCH.code() {
            Some(Method::HTTP_SEARCH)
        } else if code == Method::HTTP_UNLOCK.code() {
            Some(Method::HTTP_UNLOCK)
        } else if code == Method::HTTP_BIND.code() {
            Some(Method::HTTP_BIND)
        } else if code == Method::HTTP_REBIND.code() {
            Some(Method::HTTP_REBIND)
        } else if code == Method::HTTP_UNBIND.code() {
            Some(Method::HTTP_UNBIND)
        } else if code == Method::HTTP_ACL.code() {
            Some(Method::HTTP_ACL)
        } else if code == Method::HTTP_REPORT.code() {
            Some(Method::HTTP_REPORT)
        } else if code == Method::HTTP_MKACTIVITY.code() {
            Some(Method::HTTP_MKACTIVITY)
        } else if code == Method::HTTP_CHECKOUT.code() {
            Some(Method::HTTP_CHECKOUT)
        } else if code == Method::HTTP_MERGE.code() {
            Some(Method::HTTP_MERGE)
        } else if code == Method::HTTP_MSEARCH.code() {
            Some(Method::HTTP_MSEARCH)
        } else if code == Method::HTTP_NOTIFY.code() {
            Some(Method::HTTP_NOTIFY)
        } else if code == Method::HTTP_SUBSCRIBE.code() {
            Some(Method::HTTP_SUBSCRIBE)
        } else if code == Method::HTTP_UNSUBSCRIBE.code() {
            Some(Method::HTTP_UNSUBSCRIBE)
        } else if code == Method::HTTP_PATCH.code() {
            Some(Method::HTTP_PATCH)
        } else if code == Method::HTTP_PURGE.code() {
            Some(Method::HTTP_PURGE)
        } else if code == Method::HTTP_MKCALENDAR.code() {
            Some(Method::HTTP_MKCALENDAR)
        } else if code == Method::HTTP_LINK.code() {
            Some(Method::HTTP_LINK)
        } else if code == Method::HTTP_UNLINK.code() {
            Some(Method::HTTP_UNLINK)
        } else if code == Method::HTTP_SOURCE.code() {
            Some(Method::HTTP_SOURCE)
        } else {
            None
        }
    }

    /// A method's code is its name, packed.
    pub proof fn lemma_code_is_packed_name(self)
        ensures
            self.code() == pack(bytes_of(self.spec_name())),
    {
        reveal_with_fuel(pack_upto, 12);
        match self {
            Method::HTTP_DELETE => {
                reveal_strlit("DELETE");
            },
            Method::HTTP_GET => {
                reveal_strlit("GET");
            },
            Method::HTTP_HEAD => {
                reveal_strlit("HEAD");
            },
            Method::HTTP_POST => {
                reveal_strlit("POST");
            },
            Method::HTTP_PUT => {
                reveal_strlit("PUT");
            },
            Method::HTTP_CONNECT => {
                reveal_strlit("CONNECT");
            },
            Method::HTTP_OPTIONS => {
                reveal_strlit("OPTIONS");
            },
            Method::HTTP_TRACE => {
                reveal_strlit("TRACE");
            },
            Method::HTTP_COPY => {
                reveal_strlit("COPY");
            },
            Method::HTTP_LOCK => {
                reveal_strlit("LOCK");
            },
            Method::HTTP_MKCOL => {
                reveal_strlit("MKCOL");
            },
            Method::HTTP_MOVE => {
                reveal_strlit("MOVE");
            },
            Method::HTTP_PROPFIND => {
                reveal_strlit("PROPFIND");
            },
            Method::HTTP_PROPPATCH => {
                reveal_strlit("PROPPATCH");
            },
            Method::HTTP_SEARCH => {
                reveal_strlit("SEARCH");
            },
            Method::HTTP_UNLOCK => {
                reveal_strlit("UNLOCK");
            },
            Method::HTTP_BIND => {
                reveal_strlit("BIND");
            },
            Method::HTTP_REBIND => {
                reveal_strlit("REBIND");
            },
            Method::HTTP_UNBIND => {
                reveal_strlit("UNBIND");
            },
            Method::HTTP_ACL => {
                reveal_strlit("ACL");
            },
            Method::HTTP_REPORT => {
                reveal_strlit("REPORT");
            },
            Method::HTTP_MKACTIVITY => {
                reveal_strlit("MKACTIVITY");
            },
            Method::HTTP_CHECKOUT => {
                reveal_strlit("CHECKOUT");
            },
            Method::HTTP_MERGE => {
                reveal_strlit("MERGE");
            },
            Method::HTTP_MSEARCH => {
                reveal_strlit("M-SEARCH");
            },
            Method::HTTP_NOTIFY => {
                reveal_strlit("NOTIFY");
            },
            Method::HTTP_SUBSCRIBE => {
                reveal_strlit("SUBSCRIBE");
            },
            Method::HTTP_UNSUBSCRIBE => {
                reveal_strlit("UNSUBSCRIBE");
            },
            Method::HTTP_PATCH => {
                reveal_strlit("PATCH");
            },
            Method::HTTP_PURGE => {
                reveal_strlit("PURGE");
            },
            Method::HTTP_MKCALENDAR => {
                reveal_strlit("MKCALENDAR");
            },
            Method::HTTP_LINK => {
                reveal_strlit("LINK");
            },
            Method::HTTP_UNLINK => {
                reveal_strlit("UNLINK");
            },
            Method::HTTP_SOURCE => {
                reveal_strlit("SOURCE");
            },
        }
    }

    /// A method's name is a token.
    pub proof fn lemma_name_is_token(self)
        ensures
            is_token_string(bytes_of(self.spec_name())),
    {
        reveal_with_fuel(all_tokens_upto, 12);
        match self {
            Method::HTTP_DELETE => {
                reveal_strlit("DELETE");
            },
            Method::HTTP_GET => {
                reveal_strlit("GET");
            },
            Method::HTTP_HEAD => {
                reveal_strlit("HEAD");
            },
            Method::HTTP_POST => {
                reveal_strlit("POST");
            },
            Method::HTTP_PUT => {
                reveal_strlit("PUT");
            },
            Method::HTTP_CONNECT => {
                reveal_strlit("CONNECT");
            },
            Method::HTTP_OPTIONS => {
                reveal_strlit("OPTIONS");
            },
            Method::HTTP_TRACE => {
                reveal_strlit("TRACE");
            },
            Method::HTTP_COPY => {
                reveal_strlit("COPY");
            },
            Method::HTTP_LOCK => {
                reveal_strlit("LOCK");
            },
            Method::HTTP_MKCOL => {
                reveal_strlit("MKCOL");
            },
            Method::HTTP_MOVE => {
                reveal_strlit("MOVE");
            },
            Method::HTTP_PROPFIND => {
                reveal_strlit("PROPFIND");
            },
            Method::HTTP_PROPPATCH => {
                reveal_strlit("PROPPATCH");
            },
            Method::HTTP_SEARCH => {
                reveal_strlit("SEARCH");
            },
            Method::HTTP_UNLOCK => {
                reveal_strlit("UNLOCK");
            },
            Method::HTTP_BIND => {
                reveal_strlit("BIND");
            },
            Method::HTTP_REBIND => {
                reveal_strlit("REBIND");
            },
            Method::HTTP_UNBIND => {
                reveal_strlit("UNBIND");
            },
            Method::HTTP_ACL => {
                reveal_strlit("ACL");
            },
            Method::HTTP_REPORT => {
                reveal_strlit("REPORT");
            },
            Method::HTTP_MKACTIVITY => {
                reveal_strlit("MKACTIVITY");
            },
            Method::HTTP_CHECKOUT => {
                reveal_strlit("CHECKOUT");
            },
            Method::HTTP_MERGE => {
                reveal_strlit("MERGE");
            },
            Method::HTTP_MSEARCH => {
                reveal_strlit("M-SEARCH");
            },
            Method::HTTP_NOTIFY => {
                reveal_strlit("NOTIFY");
            },
            Method::HTTP_SUBSCRIBE => {
                reveal_strlit("SUBSCRIBE");
            },
            Method::HTTP_UNSUBSCRIBE => {
                reveal_strlit("UNSUBSCRIBE");
            },
            Method::HTTP_PATCH => {
                reveal_strlit("PATCH");
            },
            Method::HTTP_PURGE => {
                reveal_strlit("PURGE");
            },
            Method::HTTP_MKCALENDAR => {
                reveal_strlit("MKCALENDAR");
            },
            Method::HTTP_LINK => {
                reveal_strlit("LINK");
            },
            Method::HTTP_UNLINK => {
                reveal_strlit("UNLINK");
            },
            Method::HTTP_SOURCE => {
                reveal_strlit("SOURCE");
            },
        }
    }

    /// A code names at most one method, and every method is found by its
    /// code.
    pub proof fn lemma_from_code(self, code: u128)
        ensures
            Method::from_code(code) == Some(self) <==> code == self.code(),
    {
    }
}

/// The token constants are the packed names, and the names are tokens.
pub proof fn lemma_token_constants()
    ensures
        TOKEN_HTTP == pack(bytes_of("HTTP"@)),
        TOKEN_CONTENT_LENGTH == pack(bytes_of("content-length"@)),
        TOKEN_TRANSFER_ENCODING == pack(bytes_of("transfer-encoding"@)),
        TOKEN_CONNECTION == pack(bytes_of("connection"@)),
        TOKEN_UPGRADE == pack(bytes_of("upgrade"@)),
        TOKEN_CHUNKED == pack(bytes_of("chunked"@)),
        TOKEN_CLOSE == pack(bytes_of("close"@)),
        TOKEN_KEEP_ALIVE == pack(bytes_of("keep-alive"@)),
        is_token_string(bytes_of("HTTP"@)),
        is_token_string(bytes_of("content-length"@)),
        is_token_string(bytes_of("transfer-encoding"@)),
        is_token_string(bytes_of("connection"@)),
        is_token_string(bytes_of("upgrade"@)),
        is_token_string(bytes_of("chunked"@)),
        is_token_string(bytes_of("close"@)),
        is_token_string(bytes_of("keep-alive"@)),
{
    reveal_with_fuel(pack_upto, 18);
    reveal_with_fuel(all_tokens_upto, 18);
    reveal_strlit("HTTP");
    reveal_strlit("content-length");
    reveal_strlit("transfer-encoding");
    reveal_strlit("connection");
    reveal_strlit("upgrade");
    reveal_strlit("chunked");
    reveal_strlit("close");
    reveal_strlit("keep-alive");
}

impl Error {
    /// A short description of the error kind.
    pub open spec fn spec_reason(self) -> Seq<char> {
        match self {
            Error::HPE_OK => "Success"@,
            Error::HPE_PAUSED => "Paused"@,
            Error::HPE_PAUSED_UPGRADE => "Paused by an upgrade"@,
            Error::HPE_INVALID_METHOD => "Invalid method encountered"@,
            Error::HPE_INVALID_URL => "Invalid characters in url"@,
            Error::HPE_INVALID_CONSTANT => "Expected HTTP/"@,
            Error::HPE_INVALID_VERSION => "Invalid HTTP version"@,
            Error::HPE_INVALID_STATUS => "Invalid status code"@,
            Error::HPE_INVALID_HEADER_TOKEN => "Invalid header token"@,
            Error::HPE_HEADER_OVERFLOW => "Header field or value too long"@,
            Error::HPE_INVALID_CONTENT_LENGTH => "Invalid character in Content-Length"@,
            Error::HPE_UNEXPECTED_CONTENT_LENGTH => "Conflicting Content-Length headers"@,
            Error::HPE_AMBIGUOUS_BODY_LENGTH =>
                "Content-Length can't be present with Transfer-Encoding"@,
            Error::HPE_INVALID_TRANSFER_ENCODING => "Request has invalid Transfer-Encoding"@,
            Error::HPE_INVALID_CHUNK_SIZE => "Invalid character in chunk size"@,
            Error::HPE_CHUNK_TOO_LARGE => "Chunk size over the limit"@,
            Error::HPE_CR_EXPECTED => "Expected CR"@,
            Error::HPE_LF_EXPECTED => "Expected LF"@,
            Error::HPE_CLOSED_CONNECTION => "Data after `Connection: close`"@,
            Error::HPE_INVALID_EOF_STATE => "Invalid EOF state"@,
            Error::HPE_UNEXPECTED_EOF => "Stream ended inside a body"@,
            Error::HPE_CB_MESSAGE_BEGIN => "`on_message_begin` callback error"@,
            Error::HPE_CB_URL_COMPLETE => "`on_url_complete` callback error"@,
            Error::HPE_CB_STATUS_COMPLETE => "`on_status_complete` callback error"@,
            Error::HPE_CB_HEADER_FIELD_COMPLETE => "`on_header_field_complete` callback error"@,
            Error::HPE_CB_HEADER_VALUE_COMPLETE => "`on_header_value_complete` callback error"@,
            Error::HPE_CB_HEADERS_COMPLETE => "`on_headers_complete` callback error"@,
            Error::HPE_CB_MESSAGE_COMPLETE => "`on_message_complete` callback error"@,
            Error::HPE_CB_CHUNK_HEADER => "`on_chunk_header` callback error"@,
            Error::HPE_CB_CHUNK_COMPLETE => "`on_chunk_complete` callback error"@,
            Error::HPE_USER => "Span callback error"@,
        }
    }

    /// A short description of the error kind.
    pub fn reason(self) -> (r: &'static str)
        ensures
            r@ == self.spec_reason(),
    {
        match self {
            Error::HPE_OK => "Success",
            Error::HPE_PAUSED => "Paused",
            Error::HPE_PAUSED_UPGRADE => "Paused by an upgrade",
            Error::HPE_INVALID_METHOD => "Invalid method encountered",
            Error::HPE_INVALID_URL => "Invalid characters in url",
            Error::HPE_INVALID_CONSTANT => "Expected HTTP/",
            Error::HPE_INVALID_VERSION => "Invalid HTTP version",
            Error::HPE_INVALID_STATUS => "Invalid status code",
            Error::HPE_INVALID_HEADER_TOKEN => "Invalid header token",
            Error::HPE_HEADER_OVERFLOW => "Header field or value too long",
            Error::HPE_INVALID_CONTENT_LENGTH => "Invalid character in Content-Length",
            Error::HPE_UNEXPECTED_CONTENT_LENGTH => "Conflicting Content-Length headers",
            Error::HPE_AMBIGUOUS_BODY_LENGTH =>
                "Content-Length can't be present with Transfer-Encoding",
            Error::HPE_INVALID_TRANSFER_ENCODING => "Request has invalid Transfer-Encoding",
            Error::HPE_INVALID_CHUNK_SIZE => "Invalid character in chunk size",
            Error::HPE_CHUNK_TOO_LARGE => "Chunk size over the limit",
            Error::HPE_CR_EXPECTED => "Expected CR",
            Error::HPE_LF_EXPECTED => "Expected LF",
            Error::HPE_CLOSED_CONNECTION => "Data after `Connection: close`",
            Error::HPE_INVALID_EOF_STATE => "Invalid EOF state",
            Error::HPE_UNEXPECTED_EOF => "Stream ended inside a body",
            Error::HPE_CB_MESSAGE_BEGIN => "`on_message_begin` callback error",
            Error::HPE_CB_URL_COMPLETE => "`on_url_complete` callback error",
            Error::HPE_CB_STATUS_COMPLETE => "`on_status_complete` callback error",
            Error::HPE_CB_HEADER_FIELD_COMPLETE => "`on_header_field_complete` callback error",
            Error::HPE_CB_HEADER_VALUE_COMPLETE => "`on_header_value_complete` callback error",
            Error::HPE_CB_HEADERS_COMPLETE => "`on_headers_complete` callback error",
            Error::HPE_CB_MESSAGE_COMPLETE => "`on_message_complete` callback error",
            Error::HPE_CB_CHUNK_HEADER => "`on_chunk_header` callback error",
            Error::HPE_CB_CHUNK_COMPLETE => "`on_chunk_complete` callback error",
            Error::HPE_USER => "Span callback error",
        }
    }

    /// The error is one that only a hook gives: a pause, or the refusal
    /// of an event.
    pub open spec fn spec_from_hook(self) -> bool {
        match self {
            Error::HPE_PAUSED
            | Error::HPE_CB_MESSAGE_BEGIN
            | Error::HPE_CB_URL_COMPLETE
            | Error::HPE_CB_STATUS_COMPLETE
            | Error::HPE_CB_HEADER_FIELD_COMPLETE
            | Error::HPE_CB_HEADER_VALUE_COMPLETE
            | Error::HPE_CB_HEADERS_COMPLETE
            | Error::HPE_CB_MESSAGE_COMPLETE
            | Error::HPE_CB_CHUNK_HEADER
            | Error::HPE_CB_CHUNK_COMPLETE
            | Error::HPE_USER => true,
            _ => false,
        }
    }

    /// Computes `spec_from_hook`.
    #[verifier::when_used_as_spec(spec_from_hook)]
    pub fn from_hook(self) -> (r: bool)
        ensures
            r == self.spec_from_hook(),
    {
        match self {
            Error::HPE_PAUSED
            | Error::HPE_CB_MESSAGE_BEGIN
            | Error::HPE_CB_URL_COMPLETE
            | Error::HPE_CB_STATUS_COMPLETE
            | Error::HPE_CB_HEADER_FIELD_COMPLETE
            | Error::HPE_CB_HEADER_VALUE_COMPLETE
            | Error::HPE_CB_HEADERS_COMPLETE
            | Error::HPE_CB_MESSAGE_COMPLETE
            | Error::HPE_CB_CHUNK_HEADER
            | Error::HPE_CB_CHUNK_COMPLETE
            | Error::HPE_USER => true,
            _ => false,
        }
    }

    /// The parser has not stopped.
    pub open spec fn spec_is_ok(self) -> bool {
        self == Error::HPE_OK
    }

    /// Computes `spec_is_ok`.
    #[verifier::when_used_as_spec(spec_is_ok)]
    pub fn is_ok(self) -> (r: bool)
        ensures
            r == self.spec_is_ok(),
    {
        self == Error::HPE_OK
    }
}

} // verus!
