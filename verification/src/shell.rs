use crate::channel::{views, Channel, ChannelView};
use crate::client::{result_view, FetchError, FetchFault};
use crate::player::{play_effects, PlayRequest, PlayerController};
use vstd::prelude::*;

verus! {

/// One clickable row of the list: its label, and the channel that a click on
/// it plays. The channel is the one that the row was made for.
#[derive(Clone, Debug, PartialEq, Eq)]
pub struct Row {
    pub label: String,
    pub channel: Channel,
}

pub struct RowView {
    pub label: Seq<char>,
    pub channel: ChannelView,
}

impl View for Row {
    type V = RowView;

    open spec fn view(&self) -> RowView {
        RowView { label: self.label@, channel: self.channel@ }
    }
}

/// The rows that a lineup is shown as: one for each channel, in the lineup's
/// order, labelled with the channel's guide name.
pub open spec fn rows_for(channels: Seq<ChannelView>) -> Seq<RowView> {
    Seq::new(
        channels.len(),
        |i: int| RowView { label: channels[i].guide_name, channel: channels[i] },
    )
}

/// The words shown where the fetch gave no lineup.
pub open spec fn failure_notice() -> Seq<char> {
    "bad request"@
}

/// What the window shows.
enum Screen {
    /// The lineup result has not arrived.
    Waiting,
    /// The lineup, one row for each channel.
    Listing(Vec<Row>),
    /// The fetch gave no lineup.
    Failed(FetchError),
}

/// The contents of the window: the list of rows, filled at most once, from the
/// one lineup result.
pub struct Shell {
    screen: Screen,
}

impl Shell {
    /// The rows on display, in order.
    pub closed spec fn rows(&self) -> Seq<RowView> {
        match self.screen {
            Screen::Listing(rows) => rows@.map_values(|row: Row| row@),
            _ => Seq::empty(),
        }
    }

    /// Why there is no list, where the fetch failed.
    pub closed spec fn failure(&self) -> Option<FetchFault> {
        match self.screen {
            Screen::Failed(error) => Some(error@),
            _ => None,
        }
    }

    /// Whether a lineup result has been rendered.
    pub closed spec fn rendered(&self) -> bool {
        !(self.screen is Waiting)
    }

    /// A shell that waits for the lineup result: no rows, no failure.
    pub fn new() -> (shell: Self)
        ensures
            !shell.rendered(),
            shell.rows() == Seq::<RowView>::empty(),
            shell.failure() is None,
    {
        Shell { screen: Screen::Waiting }
    }

    /// Renders the lineup result. The first call fills the window: with one
    /// row for each channel, or with the failure. Every later call changes
    /// nothing. The result says whether this call was the first.
    pub fn render(&mut self, result: Result<Vec<Channel>, FetchError>) -> (first: bool)
        ensures
            first == !old(self).rendered(),
            final(self).rendered(),
            !first ==> final(self).rows() == old(self).rows(),
            !first ==> final(self).failure() == old(self).failure(),
            first ==> match result_view(result) {
                Ok(channels) => {
                    &&& final(self).rows() == rows_for(channels)
                    &&& final(self).failure() is None
                },
                Err(fault) => {
                    &&& final(self).rows() == Seq::<RowView>::empty()
                    &&& final(self).failure() == Some(fault)
                },
            },
    {
        match self.screen {
            Screen::Waiting => {},
            _ => {
                return false;
            },
        }
        match result {
            Ok(channels) => {
                let mut rows: Vec<Row> = Vec::new();
                let mut i: usize = 0;
                while i < channels.len()
                    invariant
                        0 <= i <= channels.len(),
                        rows@.len() == i,
                        forall|k: int|
                            0 <= k < i ==> (#[trigger] rows@[k])@ == (RowView {
                                label: channels@[k]@.guide_name,
                                channel: channels@[k]@,
                            }),
                    decreases channels.len() - i,
                {
                    let channel = channels[i].clone();
                    rows.push(Row { label: channel.guide_name.clone(), channel });
                    i += 1;
                }
                self.screen = Screen::Listing(rows);
                assert(self.rows() =~= rows_for(views(channels@)));
            },
            Err(error) => {
                self.screen = Screen::Failed(error);
            },
        }
        true
    }

    /// How many rows are on display.
    pub fn row_count(&self) -> (count: usize)
        ensures
            count == self.rows().len(),
    {
        match &self.screen {
            Screen::Listing(rows) => rows.len(),
            _ => 0,
        }
    }

    /// The row at `index`, counted from the top.
    pub fn row(&self, index: usize) -> (row: Option<&Row>)
        ensures
            row is Some <==> index < self.rows().len(),
            row is Some ==> row->Some_0@ == self.rows()[index as int],
    {
        match &self.screen {
            Screen::Listing(rows) => if index < rows.len() {
                Some(&rows[index])
            } else {
                None
            },
            _ => None,
        }
    }

    /// The words to show in place of the list, where the fetch failed.
    pub fn notice(&self) -> (notice: Option<&'static str>)
        ensures
            notice is Some <==> self.failure() is Some,
            notice is Some ==> notice->Some_0@ == failure_notice(),
    {
        match &self.screen {
            Screen::Failed(_) => Some("bad request"),
            _ => None,
        }
    }

    /// Why there is no list, where the fetch failed.
    pub fn failure_reason(&self) -> (reason: Option<&FetchError>)
        ensures
            reason is Some <==> self.failure() is Some,
            reason is Some ==> reason->Some_0@ == self.failure()->Some_0,
    {
        match &self.screen {
            Screen::Failed(error) => Some(error),
            _ => None,
        }
    }

    /// A click on the row at `index`: begins a play of the row's channel on
    /// `controller`. A click where no row is changes nothing.
    pub fn click<H>(&self, index: usize, controller: &mut PlayerController<H>) -> (request: Option<
        PlayRequest<H>,
    >)
        ensures
            request is Some <==> index < self.rows().len(),
            request is Some ==> {
                &&& request->Some_0.terminate == old(controller).owned()
                &&& request->Some_0.url@ == self.rows()[index as int].channel.url
                &&& request->Some_0.effects() == play_effects(
                    old(controller).owned(),
                    self.rows()[index as int].channel.url,
                )
                &&& final(controller).owned() is None
            },
            request is None ==> final(controller).owned() == old(controller).owned(),
    {
        match self.row(index) {
            Some(row) => Some(controller.begin_play(&row.channel)),
            None => None,
        }
    }
}

/// No row is on display before a lineup result has been rendered.
pub proof fn lemma_no_rows_before_result(shell: Shell)
    ensures
        !shell.rendered() ==> shell.rows().len() == 0 && shell.failure() is None,
{
}

} // verus!
