//! The per-message decisions of a connection: what to do next after each
//! read, from receiving the ICAP head to handing the message to a callback.
use crate::decoder::DecodingStatus;
use crate::messages::icap_head_of;
use crate::method::Method;
use crate::request_context::{entities_ok, init_accepts, rbuf_of, ReqCtx};
use crate::response::{check_preview_zero, preview_check_of, PreviewCheck};
use vstd::prelude::*;

verus! {

/// Where a message stands in its reception.
#[derive(Debug, Copy, Clone, PartialEq, Eq, Structural)]
pub enum Stage {
    /// The ICAP head is not decoded yet.
    Init,
    /// The ICAP head is decoded; the encapsulated heads may be incomplete.
    HeaderBytes,
    /// The heads are whole; the preview-zero chunk may be incomplete.
    Preview,
}

/// What the connection does next.
#[derive(Debug, Copy, Clone, PartialEq, Eq, Structural)]
pub enum Action {
    /// Read more bytes into the context, then advance again from the stage.
    Read(Stage),
    /// The message is malformed: answer 400 and close.
    BadRequest,
    /// The message is whole and decoded: hand it to the callback of its method.
    Dispatch(Method),
}

/// The received bytes hold the encapsulated heads: everything up to the
/// body offset, or everything when there is no body entity.
pub open spec fn heads_received(c: &ReqCtx) -> bool {
    c.body_offset == usize::MAX || c.icap_req.parsed_len + c.body_offset <= rbuf_of(c).len()
}

/// The request announces a body, so a preview-zero chunk must follow its heads.
pub open spec fn expects_preview(c: &ReqCtx) -> bool {
    c.icap_req.method != Method::Options && !c.null_body
}

/// The bytes from the start of the body on.
pub open spec fn body_bytes_of(c: &ReqCtx) -> Seq<u8> {
    rbuf_of(c).subrange(c.icap_req.parsed_len + c.body_offset, rbuf_of(c).len() as int)
}

/// The context after the ICAP head was decoded and checked.
pub open spec fn initialized(c: &ReqCtx) -> bool {
    &&& c.icap_req.parsed_len <= rbuf_of(c).len()
    &&& crate::request_context::ee_shape_ok(c.icap_req.method, c.ee_list@)
}

impl ReqCtx {
    /// Whether the encapsulated heads are wholly received.
    pub fn heads_complete(&self) -> (r: bool)
        ensures
            r == heads_received(self),
    {
        if self.body_offset == usize::MAX {
            return true;
        }
        let len = crate::bindings::buf_len(&self.rbuf);
        self.icap_req.parsed_len <= len && self.body_offset <= len - self.icap_req.parsed_len
    }

    /// Where the preview-zero chunk stands; `NeedMore` while the body has
    /// not begun to arrive.
    pub fn preview_status(&self) -> (r: PreviewCheck)
        ensures
            self.body_offset == usize::MAX ==> r == PreviewCheck::NeedMore,
            heads_received(self) && self.body_offset != usize::MAX ==> r == preview_check_of(
                body_bytes_of(self),
            ),
    {
        let b = crate::bindings::buf_bytes(&self.rbuf);
        let len = b.len();
        if self.body_offset == usize::MAX || self.icap_req.parsed_len > len || self.body_offset
            > len - self.icap_req.parsed_len {
            return PreviewCheck::NeedMore;
        }
        let start = self.icap_req.parsed_len + self.body_offset;
        check_preview_zero(&b[start..len])
    }

    /// Advances the reception of a message from `stage`, after new bytes
    /// arrived (or at the start).
    pub fn advance(&mut self, stage: Stage) -> (r: Action)
        requires
            stage != Stage::Init ==> initialized(old(self)),
        ensures
            rbuf_of(final(self)) == rbuf_of(old(self)),
            r matches Action::Read(s) ==> s != Stage::Init ==> initialized(final(self)),
            stage == Stage::Init && icap_head_of(rbuf_of(old(self))) == Ok::<
                Option<(Method, Seq<u8>, Seq<(Seq<u8>, Seq<u8>)>, nat)>,
                crate::messages::HeadFault,
            >(None) ==> r
                == Action::Read(Stage::Init),
            stage == Stage::Init && icap_head_of(rbuf_of(old(self))) is Err ==> r
                == Action::BadRequest,
            r matches Action::Read(Stage::HeaderBytes) ==> !heads_received(final(self)),
            r matches Action::Read(Stage::Preview) ==> heads_received(final(self)) && expects_preview(
                final(self),
            ) && (final(self).body_offset != usize::MAX ==> preview_check_of(
                body_bytes_of(final(self)),
            ) == PreviewCheck::NeedMore),
            stage != Stage::Init ==> final(self).icap_req == old(self).icap_req
                && final(self).ee_list == old(self).ee_list && final(self).body_offset == old(
                self,
            ).body_offset && final(self).null_body == old(self).null_body,
            stage == Stage::Init && icap_head_of(rbuf_of(old(self))) is Ok && icap_head_of(
                rbuf_of(old(self)),
            ) != Ok::<
                Option<(Method, Seq<u8>, Seq<(Seq<u8>, Seq<u8>)>, nat)>,
                crate::messages::HeadFault,
            >(None) && !init_accepts(old(self)) ==> r == Action::BadRequest,
            r == Action::Read(Stage::Init) ==> stage == Stage::Init && icap_head_of(
                rbuf_of(old(self)),
            ) == Ok::<
                Option<(Method, Seq<u8>, Seq<(Seq<u8>, Seq<u8>)>, nat)>,
                crate::messages::HeadFault,
            >(None),
            r == Action::BadRequest ==> (stage == Stage::Init && !init_accepts(old(self))) || (
            expects_preview(final(self)) && final(self).body_offset != usize::MAX && heads_received(
                final(self),
            ) && preview_check_of(body_bytes_of(final(self))) == PreviewCheck::Bad) || !entities_ok(
                final(self),
            ),
            r matches Action::Dispatch(_) ==> entities_ok(final(self)),
            r matches Action::Dispatch(m) ==> m == final(self).icap_req.method && heads_received(
                final(self),
            ) && crate::request_context::ee_shape_ok(m, final(self).ee_list@) && (expects_preview(
                final(self),
            ) ==> preview_check_of(body_bytes_of(final(self))) == PreviewCheck::Ready),
    {
        if stage == Stage::Init {
            match self.init() {
                Err(_) => {
                    return Action::BadRequest;
                },
                Ok(DecodingStatus::Partial) => {
                    return Action::Read(Stage::Init);
                },
                Ok(DecodingStatus::Complete) => {},
            }
        }
        if !self.heads_complete() {
            return Action::Read(Stage::HeaderBytes);
        }
        if self.icap_req.method.is_any_req() && !self.null_body {
            match self.preview_status() {
                PreviewCheck::NeedMore => {
                    return Action::Read(Stage::Preview);
                },
                PreviewCheck::Bad => {
                    return Action::BadRequest;
                },
                PreviewCheck::Ready => {},
            }
        }
        match self.parse_entities() {
            Err(_) => Action::BadRequest,
            Ok(()) => Action::Dispatch(self.icap_req.method),
        }
    }
}

} // verus!
