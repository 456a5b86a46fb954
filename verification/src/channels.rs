//! The navigation state of the client: the list of guilds, the channels of
//! the guild that is open, which entry of each is selected, and the messages
//! of the channel that is open.
use vstd::prelude::*;
use crate::data::{Guild, Channel, Msg, MsgView, msg_views};
use crate::gateway::GatewayResponse;

verus! {

/// What the left-hand list shows: the guilds, or the channels of one guild.
#[derive(PartialEq, Eq, Structural, Clone, Copy, Debug)]
pub enum DisplayMode {
    GuildMode,
    ChannelMode,
}

/// A list with at most one selected entry.
#[derive(Debug)]
pub struct StatefulList<T> {
    pub items: Vec<T>,
    pub selected: Option<usize>,
}

/// The selection after moving down: the first entry when nothing is
/// selected, the next one otherwise, and back to the first after the last.
/// An empty list keeps no selection.
pub open spec fn next_selection(selected: Option<usize>, len: nat) -> Option<usize> {
    if len == 0 {
        None
    } else {
        match selected {
            Some(i) => if i + 1 >= len {
                Some(0usize)
            } else {
                Some((i + 1) as usize)
            },
            None => Some(0usize),
        }
    }
}

/// The selection after moving up: the first entry when nothing is selected,
/// the previous one otherwise, and on to the last from the first. An empty
/// list keeps no selection.
pub open spec fn previous_selection(selected: Option<usize>, len: nat) -> Option<usize> {
    if len == 0 {
        None
    } else {
        match selected {
            Some(i) => if i == 0 {
                Some((len - 1) as usize)
            } else {
                Some((i - 1) as usize)
            },
            None => Some(0usize),
        }
    }
}

impl<T> StatefulList<T> {
    /// The selection, where there is one, is an index into the list.
    pub open spec fn valid(&self) -> bool {
        self.selected matches Some(i) ==> i < self.items@.len()
    }

    /// A list of `items` with nothing selected.
    pub fn with_items(items: Vec<T>) -> (r: StatefulList<T>)
        ensures
            r.items@ == items@,
            r.selected is None,
            r.valid(),
    {
        StatefulList { items, selected: None }
    }

    /// Moves the selection down (see `next_selection`).
    pub fn next(&mut self)
        requires
            old(self).valid(),
        ensures
            final(self).valid(),
            final(self).items == old(self).items,
            final(self).selected == next_selection(old(self).selected, old(self).items@.len()),
            old(self).selected is Some && old(self).selected->0 + 1 < old(self).items@.len() ==> final(self).selected == Some((old(self).selected->0 + 1) as usize),
            old(self).selected is Some && old(self).selected->0 + 1 == old(self).items@.len() ==> final(self).selected == Some(0usize),
            old(self).selected is None && old(self).items@.len() > 0 ==> final(self).selected
                == Some(0usize),
    {
        let len = self.items.len();
        if len == 0 {
            self.selected = None;
        } else {
            let i: usize = match self.selected {
                Some(i) => if i + 1 >= len {
                    0
                } else {
                    i + 1
                },
                None => 0,
            };
            self.selected = Some(i);
        }
    }

    /// Moves the selection up (see `previous_selection`).
    pub fn previous(&mut self)
        requires
            old(self).valid(),
        ensures
            final(self).valid(),
            final(self).items == old(self).items,
            final(self).selected == previous_selection(old(self).selected, old(self).items@.len()),
            old(self).selected is Some && 0 < old(self).selected->0 ==> final(self).selected == Some(
                (old(self).selected->0 - 1) as usize,
            ),
            old(self).selected == Some(0usize) ==> final(self).selected == Some(
                (old(self).items@.len() - 1) as usize,
            ),
            old(self).selected is None && old(self).items@.len() > 0 ==> final(self).selected
                == Some(0usize),
    {
        let len = self.items.len();
        if len == 0 {
            self.selected = None;
        } else {
            let i: usize = match self.selected {
                Some(i) => if i == 0 {
                    len - 1
                } else {
                    i - 1
                },
                None => 0,
            };
            self.selected = Some(i);
        }
    }

    /// Clears the selection.
    pub fn unselect(&mut self)
        ensures
            final(self).valid(),
            final(self).items == old(self).items,
            final(self).selected is None,
    {
        self.selected = None;
    }

    /// The selected entry, if any.
    pub fn selected_item(&self) -> (r: Option<&T>)
        requires
            self.valid(),
        ensures
            match self.selected {
                Some(i) => r == Some(&self.items@[i as int]),
                None => r is None,
            },
    {
        match self.selected {
            Some(i) => Some(&self.items[i]),
            None => None,
        }
    }
}

/// Down selects the entry below the selected one, and the first after the
/// last; Up selects the entry above it, and the last before the first.
pub proof fn lemma_down_moves_down_up_moves_up(i: usize, len: nat)
    requires
        i < len,
        len <= usize::MAX,
    ensures
        i + 1 < len ==> next_selection(Some(i), len) == Some((i + 1) as usize),
        i + 1 == len ==> next_selection(Some(i), len) == Some(0usize),
        0 < i ==> previous_selection(Some(i), len) == Some((i - 1) as usize),
        i == 0 ==> previous_selection(Some(i), len) == Some((len - 1) as usize),
{
}

/// Moving down then up comes back to the entry that was selected.
pub proof fn lemma_previous_undoes_next(i: usize, len: nat)
    requires
        i < len,
        len <= usize::MAX,
    ensures
        previous_selection(next_selection(Some(i), len), len) == Some(i),
{
}

/// Moving up then down comes back to the entry that was selected.
pub proof fn lemma_next_undoes_previous(i: usize, len: nat)
    requires
        i < len,
        len <= usize::MAX,
    ensures
        next_selection(previous_selection(Some(i), len), len) == Some(i),
{
}

/// Moving down or up keeps the selection inside a list that has entries.
pub proof fn lemma_moves_stay_in_list(selected: Option<usize>, len: nat)
    requires
        0 < len <= usize::MAX,
        selected matches Some(i) ==> i < len,
    ensures
        next_selection(selected, len) matches Some(j) && j < len,
        previous_selection(selected, len) matches Some(k) && k < len,
{
}

/// The message that `response` adds to those shown of the open channel
/// `open_id`: a created message of that channel, and none otherwise.
pub open spec fn spec_arriving(response: GatewayResponse, open_id: Seq<char>) -> Option<MsgView> {
    match response.msg {
        Some(m) => if m.channel_id@ == open_id {
            Some(m@)
        } else {
            None
        },
        None => None,
    }
}

/// The messages shown of the open channel `open_id`, starting from `shown`,
/// after taking in `responses` one at a time in the order they were queued.
pub open spec fn reacted_run(
    shown: Seq<MsgView>,
    open_id: Seq<char>,
    responses: Seq<GatewayResponse>,
) -> Seq<MsgView>
    decreases responses.len(),
{
    if responses.len() == 0 {
        shown
    } else {
        let before = reacted_run(shown, open_id, responses.drop_last());
        match spec_arriving(responses.last(), open_id) {
            Some(m) => before.push(m),
            None => before,
        }
    }
}

/// Taking in queued responses one at a time appends, in queue order, the
/// messages created in the open channel, and nothing for any other response.
pub proof fn lemma_reactions_in_queue_order(
    shown: Seq<MsgView>,
    open_id: Seq<char>,
    responses: Seq<GatewayResponse>,
)
    ensures
        reacted_run(shown, open_id, responses) == shown + responses.filter(
            |r: GatewayResponse| spec_arriving(r, open_id) is Some,
        ).map_values(|r: GatewayResponse| spec_arriving(r, open_id)->0),
    decreases responses.len(),
{
    reveal_with_fuel(Seq::filter, 1);
    let kept = responses.filter(|r: GatewayResponse| spec_arriving(r, open_id) is Some);
    if responses.len() > 0 {
        lemma_reactions_in_queue_order(shown, open_id, responses.drop_last());
        let before = responses.drop_last().filter(
            |r: GatewayResponse| spec_arriving(r, open_id) is Some,
        );
        let f = |r: GatewayResponse| spec_arriving(r, open_id)->0;
        if spec_arriving(responses.last(), open_id) is Some {
            assert(before.push(responses.last()).map_values(f) =~= before.map_values(f).push(
                f(responses.last()),
            ));
            assert(shown + before.map_values(f).push(f(responses.last())) =~= (shown
                + before.map_values(f)).push(f(responses.last())));
        }
    } else {
        assert(kept.len() == 0);
        assert(shown + kept.map_values(|r: GatewayResponse| spec_arriving(r, open_id)->0) =~= shown);
    }
}

/// The client's navigation state.
#[derive(Debug)]
pub struct App {
    pub mode: DisplayMode,
    pub guilds: StatefulList<Guild>,
    pub items: StatefulList<Channel>,
    pub messages: Option<Vec<Msg>>,
}

impl App {
    /// Both selections are indices into their lists.
    pub open spec fn wf(&self) -> bool {
        self.guilds.valid() && self.items.valid()
    }

    /// A channel of the open guild is selected.
    pub open spec fn has_channel(&self) -> bool {
        self.items.selected matches Some(i) && i < self.items.items@.len()
    }

    /// The selected channel.
    pub open spec fn spec_channel(&self) -> Channel {
        self.items.items@[self.items.selected->0 as int]
    }

    /// The state at start: the guilds listed, none selected, no guild open.
    pub fn new(guilds: Vec<Guild>) -> (r: App)
        ensures
            r.wf(),
            r.mode == DisplayMode::GuildMode,
            r.guilds.items@ == guilds@,
            r.guilds.selected is None,
            r.items.items@.len() == 0,
            r.items.selected is None,
            r.messages is None,
    {
        App {
            mode: DisplayMode::GuildMode,
            guilds: StatefulList::with_items(guilds),
            items: StatefulList::with_items(Vec::new()),
            messages: None,
        }
    }

    /// Moves the selection of the list shown down.
    pub fn next(&mut self)
        requires
            old(self).wf(),
        ensures
            final(self).wf(),
            final(self).mode == old(self).mode,
            final(self).messages == old(self).messages,
            old(self).mode == DisplayMode::GuildMode ==> final(self).items == old(self).items
                && final(self).guilds.items == old(self).guilds.items
                && final(self).guilds.selected == next_selection(
                old(self).guilds.selected,
                old(self).guilds.items@.len(),
            ),
            old(self).mode == DisplayMode::ChannelMode ==> final(self).guilds == old(self).guilds
                && final(self).items.items == old(self).items.items
                && final(self).items.selected == next_selection(
                old(self).items.selected,
                old(self).items.items@.len(),
            ),
    {
        match self.mode {
            DisplayMode::GuildMode => self.guilds.next(),
            DisplayMode::ChannelMode => self.items.next(),
        }
    }

    /// Moves the selection of the list shown up.
    pub fn previous(&mut self)
        requires
            old(self).wf(),
        ensures
            final(self).wf(),
            final(self).mode == old(self).mode,
            final(self).messages == old(self).messages,
            old(self).mode == DisplayMode::GuildMode ==> final(self).items == old(self).items
                && final(self).guilds.items == old(self).guilds.items
                && final(self).guilds.selected == previous_selection(
                old(self).guilds.selected,
                old(self).guilds.items@.len(),
            ),
            old(self).mode == DisplayMode::ChannelMode ==> final(self).guilds == old(self).guilds
                && final(self).items.items == old(self).items.items
                && final(self).items.selected == previous_selection(
                old(self).items.selected,
                old(self).items.items@.len(),
            ),
    {
        match self.mode {
            DisplayMode::GuildMode => self.guilds.previous(),
            DisplayMode::ChannelMode => self.items.previous(),
        }
    }

    /// Clears the selection of the list shown.
    pub fn unselect(&mut self)
        requires
            old(self).wf(),
        ensures
            final(self).wf(),
            final(self).mode == old(self).mode,
            final(self).messages == old(self).messages,
            old(self).mode == DisplayMode::GuildMode ==> final(self).items == old(self).items
                && final(self).guilds.items == old(self).guilds.items
                && final(self).guilds.selected is None,
            old(self).mode == DisplayMode::ChannelMode ==> final(self).guilds == old(self).guilds
                && final(self).items.items == old(self).items.items
                && final(self).items.selected is None,
    {
        match self.mode {
            DisplayMode::GuildMode => self.guilds.unselect(),
            DisplayMode::ChannelMode => self.items.unselect(),
        }
    }

    /// The selected guild, while the guilds are shown.
    pub fn selected_guild(&self) -> (r: Option<&Guild>)
        requires
            self.wf(),
        ensures
            match r {
                Some(g) => self.mode == DisplayMode::GuildMode && (self.guilds.selected matches Some(
                    i,
                ) && *g == self.guilds.items@[i as int]),
                None => self.mode == DisplayMode::ChannelMode || self.guilds.selected is None,
            },
    {
        match self.mode {
            DisplayMode::GuildMode => self.guilds.selected_item(),
            DisplayMode::ChannelMode => None,
        }
    }

    /// The selected channel, while the channels of a guild are shown.
    pub fn selected_channel(&self) -> (r: Option<&Channel>)
        requires
            self.wf(),
        ensures
            match r {
                Some(c) => self.mode == DisplayMode::ChannelMode && self.has_channel() && *c
                    == self.spec_channel(),
                None => self.mode == DisplayMode::GuildMode || self.items.selected is None,
            },
    {
        match self.mode {
            DisplayMode::GuildMode => None,
            DisplayMode::ChannelMode => self.items.selected_item(),
        }
    }

    /// The selected channel.
    pub fn get_channel(&self) -> (r: &Channel)
        requires
            self.has_channel(),
        ensures
            *r == self.spec_channel(),
    {
        let i = self.items.selected.unwrap();
        &self.items.items[i]
    }

    /// Opens a guild: shows `channels`, its channels, with none selected and
    /// no message shown.
    pub fn enter_guild(&mut self, channels: Vec<Channel>)
        requires
            old(self).wf(),
        ensures
            final(self).wf(),
            final(self).mode == DisplayMode::ChannelMode,
            final(self).guilds == old(self).guilds,
            final(self).items.items@ == channels@,
            final(self).items.selected is None,
            final(self).messages is None,
    {
        self.mode = DisplayMode::ChannelMode;
        self.items = StatefulList::with_items(channels);
        self.messages = None;
    }

    /// Shows `messages`, those of the channel that is open.
    pub fn show_messages(&mut self, messages: Vec<Msg>)
        ensures
            final(self).mode == old(self).mode,
            final(self).guilds == old(self).guilds,
            final(self).items == old(self).items,
            final(self).messages == Some(messages),
    {
        self.messages = Some(messages);
    }

    /// Goes back to the list of guilds; no message is shown.
    pub fn leave_guild(&mut self)
        requires
            old(self).wf(),
        ensures
            final(self).wf(),
            final(self).mode == DisplayMode::GuildMode,
            final(self).guilds == old(self).guilds,
            final(self).items == old(self).items,
            final(self).messages is None,
    {
        self.mode = DisplayMode::GuildMode;
        self.messages = None;
    }

    /// Copies of the messages shown, if any.
    pub fn get_messages(&self) -> (r: Option<Vec<Msg>>)
        ensures
            match self.messages {
                Some(m) => r matches Some(c) && msg_views(c@) == msg_views(m@),
                None => r is None,
            },
    {
        match &self.messages {
            Some(m) => {
                let mut copy: Vec<Msg> = Vec::new();
                let mut i: usize = 0;
                while i < m.len()
                    invariant
                        i <= m.len(),
                        msg_views(copy@) == msg_views(m@.take(i as int)),
                    decreases m.len() - i,
                {
                    let ghost before = copy@;
                    copy.push(m[i].duplicate());
                    assert(msg_views(copy@) =~= msg_views(before).push(m@[i as int]@));
                    assert(m@.take(i + 1) == m@.take(i as int).push(m@[i as int]));
                    assert(msg_views(m@.take(i + 1)) =~= msg_views(m@.take(i as int)).push(
                        m@[i as int]@,
                    ));
                    i = i + 1;
                }
                assert(m@.take(m.len() as int) == m@);
                Some(copy)
            },
            None => None,
        }
    }

    /// The title of the chat area: the name of the selected channel while a
    /// guild is open, that of the selected guild otherwise, and empty where
    /// nothing is selected.
    pub fn get_current_title(&self) -> (r: String)
        requires
            self.wf(),
        ensures
            r@ == (match self.mode {
                DisplayMode::ChannelMode => match self.items.selected {
                    Some(i) => self.items.items@[i as int].name@,
                    None => Seq::<char>::empty(),
                },
                DisplayMode::GuildMode => match self.guilds.selected {
                    Some(i) => self.guilds.items@[i as int].name@,
                    None => Seq::<char>::empty(),
                },
            }),
    {
        match self.mode {
            DisplayMode::ChannelMode => match self.items.selected_item() {
                Some(c) => c.name.clone(),
                None => String::new(),
            },
            DisplayMode::GuildMode => match self.guilds.selected_item() {
                Some(g) => g.name.clone(),
                None => String::new(),
            },
        }
    }

    /// Takes in a gateway event: a message created in the channel that is
    /// open, while its messages are shown, is added after them; anything else
    /// leaves the state as it was.
    pub fn react_to_gateway(&mut self, response: &GatewayResponse)
        requires
            old(self).wf(),
        ensures
            final(self).wf(),
            final(self).mode == old(self).mode,
            final(self).guilds == old(self).guilds,
            final(self).items == old(self).items,
            ({
                let shown = old(self).messages;
                let arrives = response.msg is Some && shown is Some && old(self).mode
                    == DisplayMode::ChannelMode && old(self).has_channel()
                    && response.msg->0.channel_id@ == old(self).spec_channel().id@;
                &&& arrives ==> (final(self).messages matches Some(after) && msg_views(after@)
                    == msg_views(shown->0@).push(response.msg->0@))
                &&& !arrives ==> final(self).messages == shown
                &&& (shown is Some && old(self).mode == DisplayMode::ChannelMode
                    && old(self).has_channel()) ==> (final(self).messages matches Some(after)
                    && msg_views(after@) == match spec_arriving(
                    *response,
                    old(self).spec_channel().id@,
                ) {
                    Some(m) => msg_views(shown->0@).push(m),
                    None => msg_views(shown->0@),
                })
            }),
    {
        if let Some(msg) = &response.msg {
            if self.mode == DisplayMode::ChannelMode {
                if let Some(channel) = self.items.selected_item() {
                    if crate::json::str_eq(channel.id.as_str(), msg.channel_id.as_str()) {
                        match &mut self.messages {
                            Some(shown) => {
                                let ghost before = shown@;
                                shown.push(msg.duplicate());
                                assert(msg_views(shown@) =~= msg_views(before).push(msg@));
                            },
                            None => {},
                        }
                    }
                }
            }
        }
    }
}

} // verus!
