use crate::channel::{views, Channel, ChannelView};
use crate::decode::{decode_body, lineup_of_body, DecodeError, DecodeFault};
use vstd::prelude::*;

verus! {

/// Whether a text is an absolute URL, as `url::Url::parse` judges it.
pub uninterp spec fn well_formed_uri(text: Seq<char>) -> bool;

/// `reqwest::Url::parse`, which is `url::Url::parse`: tells whether `text` can
/// be parsed as an absolute URL. Trusted: the answer is the one that
/// `well_formed_uri` names.
#[verifier::external_body]
fn parses_as_uri(text: &str) -> (ok: bool)
    ensures
        ok == well_formed_uri(text@),
{
    reqwest::Url::parse(text).is_ok()
}

/// What came back from the one GET request to the tuner.
#[derive(Clone, Debug, PartialEq, Eq)]
pub enum Transfer {
    /// A response arrived, with this status code and this body.
    Reply { status: u16, body: Vec<u8> },
    /// No response arrived: the connection was refused, timed out, the name did
    /// not resolve, or the like.
    Failed { reason: String },
}

pub enum TransferView {
    Reply { status: u16, body: Seq<u8> },
    Failed { reason: Seq<char> },
}

impl View for Transfer {
    type V = TransferView;

    open spec fn view(&self) -> TransferView {
        match self {
            Transfer::Reply { status, body } => TransferView::Reply { status: *status, body: body@ },
            Transfer::Failed { reason } => TransferView::Failed { reason: reason@ },
        }
    }
}

/// Why a fetch gave no lineup.
#[derive(Clone, Debug, PartialEq, Eq)]
pub enum FetchError {
    /// No response arrived.
    Transport { reason: String },
    /// A response arrived whose status is not a success.
    Status { code: u16 },
    /// A successful response arrived whose body is no lineup.
    Decode(DecodeError),
}

pub enum FetchFault {
    Transport { reason: Seq<char> },
    Status { code: u16 },
    Decode(DecodeFault),
}

impl View for FetchError {
    type V = FetchFault;

    open spec fn view(&self) -> FetchFault {
        match self {
            FetchError::Transport { reason } => FetchFault::Transport { reason: reason@ },
            FetchError::Status { code } => FetchFault::Status { code: *code },
            FetchError::Decode(error) => FetchFault::Decode(error@),
        }
    }
}

/// Whether a status code is a success, that is one of 200 to 299.
pub open spec fn is_success(status: u16) -> bool {
    200 <= status < 300
}

/// The lineup result that a transfer amounts to: a failure for a transfer that
/// failed, for a status that is no success and for a body that is no lineup,
/// and the body's lineup otherwise.
pub open spec fn lineup_result(transfer: TransferView) -> Result<Seq<ChannelView>, FetchFault> {
    match transfer {
        TransferView::Failed { reason } => Err(FetchFault::Transport { reason }),
        TransferView::Reply { status, body } => if !is_success(status) {
            Err(FetchFault::Status { code: status })
        } else {
            match lineup_of_body(body) {
                Ok(channels) => Ok(channels),
                Err(fault) => Err(FetchFault::Decode(fault)),
            }
        },
    }
}

/// A lineup result as a mathematical value.
pub open spec fn result_view(r: Result<Vec<Channel>, FetchError>) -> Result<
    Seq<ChannelView>,
    FetchFault,
> {
    match r {
        Ok(channels) => Ok(views(channels@)),
        Err(error) => Err(error@),
    }
}

/// A client of one tuner, known by the URI of its lineup.
pub struct HdHomerunClient {
    uri: String,
}

impl HdHomerunClient {
    #[verifier::type_invariant]
    spec fn valid(&self) -> bool {
        well_formed_uri(self.uri@)
    }

    /// The URI of the tuner's lineup.
    pub closed spec fn endpoint(&self) -> Seq<char> {
        self.uri@
    }

    /// A client for the lineup at `uri`, or `None` where `uri` is not a
    /// well-formed URI.
    pub fn new(uri: String) -> (r: Option<HdHomerunClient>)
        ensures
            r is Some <==> well_formed_uri(uri@),
            r is Some ==> r->Some_0.endpoint() == uri@,
    {
        if parses_as_uri(uri.as_str()) {
            Some(HdHomerunClient { uri })
        } else {
            None
        }
    }

    /// The URI to which the one GET request goes.
    pub fn uri(&self) -> (uri: &str)
        ensures
            uri@ == self.endpoint(),
            well_formed_uri(uri@),
    {
        proof {
            use_type_invariant(self);
        }
        self.uri.as_str()
    }

    /// Turns what came back from the GET request into the lineup result: the
    /// decoded channels, in the order of the response, or the reason why there
    /// are none. Every failure is a value; none ends the program.
    pub fn get_lineup(&mut self, transfer: Transfer) -> (r: Result<Vec<Channel>, FetchError>)
        ensures
            final(self).endpoint() == old(self).endpoint(),
            result_view(r) == lineup_result(transfer@),
    {
        match transfer {
            Transfer::Failed { reason } => Err(FetchError::Transport { reason }),
            Transfer::Reply { status, body } => {
                if status < 200 || status >= 300 {
                    Err(FetchError::Status { code: status })
                } else {
                    match decode_body(body.as_slice()) {
                        Ok(channels) => Ok(channels),
                        Err(error) => Err(FetchError::Decode(error)),
                    }
                }
            },
        }
    }
}

/// A transfer gives a lineup exactly when a response arrived, its status is a
/// success and its body is a lineup; every other transfer gives a failure
/// that says which of the three went wrong.
pub proof fn lemma_lineup_result_cases(transfer: TransferView)
    ensures
        lineup_result(transfer) is Ok <==> (transfer is Reply && is_success(transfer->status)
            && lineup_of_body(transfer->body) is Ok),
        lineup_result(transfer) is Ok ==> lineup_result(transfer)->Ok_0 == lineup_of_body(
            transfer->body,
        )->Ok_0,
        transfer is Failed ==> lineup_result(transfer) == Err::<Seq<ChannelView>, FetchFault>(
            FetchFault::Transport { reason: transfer->reason },
        ),
        transfer is Reply && !is_success(transfer->status) ==> lineup_result(transfer) == Err::<
            Seq<ChannelView>,
            FetchFault,
        >(FetchFault::Status { code: transfer->status }),
        transfer is Reply && is_success(transfer->status) && lineup_of_body(transfer->body)
            is Err ==> lineup_result(transfer) == Err::<Seq<ChannelView>, FetchFault>(
            FetchFault::Decode(lineup_of_body(transfer->body)->Err_0),
        ),
{
}

} // verus!
