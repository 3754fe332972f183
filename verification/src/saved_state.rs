//! Snapshot and rehydration of the protocol engine for live servicing.
//!
//! A snapshot captures the connection tuple, every channel record with
//! its open bit, and every settled GPADL with its teardown bit. A GPADL
//! still waiting for its creation result holds a live reply sink that
//! cannot survive a snapshot, so it is not captured; its caller sees
//! the registration fail with the old instance.

use vstd::prelude::*;

verus! {

use crate::client::Channel;
use crate::client::ChannelEntry;
use crate::client::ChannelState;
use crate::client::ClientState;
use crate::client::ClientTask;
use crate::client::GpadlEntry;
use crate::client::GpadlState;
use crate::client::InitiateContactRequest;
use crate::client::MonitorPageGpas;
use crate::client::OfferInfo;
use crate::client::TeardownEntry;
use crate::client::spec_version_ok;
use crate::client::spec_has_channel;
use crate::protocol::ChannelId;
use crate::protocol::FeatureFlags;
use crate::protocol::GpadlId;
use crate::protocol::Guid;
use crate::protocol::OfferChannel;
use crate::protocol::SUPPORTED_FEATURE_MASK;
use crate::protocol::Version;
use crate::protocol::VersionInfo;
use crate::protocol::spec_version_number;
use crate::protocol::version_number;

/// Why a snapshot cannot be rehydrated.
#[derive(Clone, Copy, Debug, PartialEq, Eq, Structural)]
pub enum RestoreError {
    /// The saved negotiated version is not in the supported set.
    UnsupportedVersion(u32),
    /// The saved feature mask holds bits this build does not implement.
    UnsupportedFeatureFlags(u32),
    /// Two saved channels carry one channel id.
    DuplicateChannelId(u32),
    /// Two saved GPADLs carry one GPADL id.
    DuplicateGpadlId(u32),
}

/// The saved connection tuple.
#[derive(Clone, Copy, Debug, PartialEq, Eq, Structural)]
pub struct SavedConnection {
    pub version: u32,
    pub feature_flags: u32,
    pub target_message_vp: u32,
    pub monitor_page: Option<MonitorPageGpas>,
    pub client_id: Guid,
}

/// One saved channel record.
#[derive(Clone, Copy, Debug, PartialEq, Eq)]
pub struct SavedChannel {
    pub offer: OfferChannel,
    pub open: bool,
}

/// One saved GPADL record.
#[derive(Clone, Copy, Debug, PartialEq, Eq, Structural)]
pub struct SavedGpadl {
    pub channel_id: u32,
    pub gpadl_id: u32,
    pub tearing_down: bool,
}

/// A snapshot of the whole engine.
#[derive(Clone, Debug, PartialEq, Eq)]
pub struct SavedState {
    pub connection: Option<SavedConnection>,
    pub channels: Vec<SavedChannel>,
    pub gpadls: Vec<SavedGpadl>,
}

/// The mathematical content of a snapshot.
pub struct SavedStateView {
    pub connection: Option<SavedConnection>,
    pub channels: Seq<SavedChannel>,
    pub gpadls: Seq<SavedGpadl>,
}

impl View for SavedState {
    type V = SavedStateView;

    open spec fn view(&self) -> SavedStateView {
        SavedStateView { connection: self.connection, channels: self.channels@, gpadls: self.gpadls@ }
    }
}

/// A restored channel offer, with whether it was open at save time.
#[derive(Clone, Copy, Debug, PartialEq, Eq)]
pub struct RestoredChannel {
    pub offer: OfferInfo,
    pub open: bool,
}

/// The saved form of one channel record.
pub open spec fn spec_saved_channel(e: ChannelEntry) -> SavedChannel {
    SavedChannel { offer: e.channel.offer, open: e.channel.state is Opened }
}

/// The saved channel list, in registry order.
pub open spec fn spec_saved_channels(chs: Seq<ChannelEntry>) -> Seq<SavedChannel>
    decreases chs.len(),
{
    if chs.len() == 0 {
        Seq::<SavedChannel>::empty()
    } else {
        spec_saved_channels(chs.drop_last()).push(spec_saved_channel(chs.last()))
    }
}

/// The saved form of one settled GPADL record.
pub open spec fn spec_saved_gpadl(g: GpadlEntry) -> SavedGpadl {
    SavedGpadl {
        channel_id: g.channel_id.0,
        gpadl_id: g.gpadl_id.0,
        tearing_down: g.state is TearingDown,
    }
}

/// The saved GPADL list, in registry order; records still waiting for
/// their creation result are not captured.
pub open spec fn spec_saved_gpadls(gps: Seq<GpadlEntry>) -> Seq<SavedGpadl>
    decreases gps.len(),
{
    if gps.len() == 0 {
        Seq::<SavedGpadl>::empty()
    } else if gps.last().state is Offered {
        spec_saved_gpadls(gps.drop_last())
    } else {
        spec_saved_gpadls(gps.drop_last()).push(spec_saved_gpadl(gps.last()))
    }
}

/// The saved connection tuple of a task, in the states that have one.
pub open spec fn spec_saved_connection(t: ClientTask) -> Option<SavedConnection> {
    match t.state.spec_version() {
        Some(v) => match t.connect_request {
            Some(cr) => Some(
                SavedConnection {
                    version: spec_version_number(v.version),
                    feature_flags: v.feature_flags.0,
                    target_message_vp: cr.target_message_vp,
                    monitor_page: cr.monitor_page,
                    client_id: cr.client_id,
                },
            ),
            None => None,
        },
        None => None,
    }
}

/// What a snapshot of a task holds.
pub open spec fn spec_save(t: ClientTask) -> SavedStateView {
    SavedStateView {
        connection: spec_saved_connection(t),
        channels: spec_saved_channels(t.channels@),
        gpadls: spec_saved_gpadls(t.gpadls@),
    }
}

/// The supported version carrying this wire number, if any.
pub open spec fn spec_version_of_number(n: u32) -> Option<Version> {
    if n == spec_version_number(Version::Copper) {
        Some(Version::Copper)
    } else if n == spec_version_number(Version::Iron) {
        Some(Version::Iron)
    } else {
        None
    }
}

/// The feature mask this client can accept at a version.
pub open spec fn spec_supported_mask(v: Version) -> u32 {
    if v == Version::Copper {
        SUPPORTED_FEATURE_MASK
    } else {
        0
    }
}

/// Whether an earlier saved channel already carries this entry's id.
pub open spec fn spec_channel_dup_at(chs: Seq<SavedChannel>, j: int) -> bool {
    exists|i: int|
        0 <= i < j && (#[trigger] chs[i]).offer.channel_id.0 == chs[j].offer.channel_id.0
}

/// Whether an earlier saved GPADL already carries this entry's id.
pub open spec fn spec_gpadl_dup_at(gps: Seq<SavedGpadl>, j: int) -> bool {
    exists|i: int| 0 <= i < j && (#[trigger] gps[i]).gpadl_id == gps[j].gpadl_id
}

/// The position of the first saved channel that repeats an id.
pub open spec fn spec_first_channel_dup(chs: Seq<SavedChannel>) -> int {
    choose|j: int|
        0 <= j < chs.len() && spec_channel_dup_at(chs, j) && (forall|q: int|
            0 <= q < j ==> !spec_channel_dup_at(chs, q))
}

/// The position of the first saved GPADL that repeats an id.
pub open spec fn spec_first_gpadl_dup(gps: Seq<SavedGpadl>) -> int {
    choose|j: int|
        0 <= j < gps.len() && spec_gpadl_dup_at(gps, j) && (forall|q: int|
            0 <= q < j ==> !spec_gpadl_dup_at(gps, q))
}

/// The first reason a snapshot is rejected, if any: an unsupported
/// version, then a feature mask beyond this build, then the first
/// repeated channel id, then the first repeated GPADL id.
pub open spec fn spec_restore_check(s: SavedStateView) -> Option<RestoreError> {
    if s.connection matches Some(c) && spec_version_of_number(c.version) is None {
        Some(RestoreError::UnsupportedVersion(s.connection->Some_0.version))
    } else if s.connection matches Some(c) && c.feature_flags & spec_supported_mask(
        spec_version_of_number(c.version)->Some_0,
    ) != c.feature_flags {
        Some(RestoreError::UnsupportedFeatureFlags(s.connection->Some_0.feature_flags))
    } else if exists|j: int| 0 <= j < s.channels.len() && spec_channel_dup_at(s.channels, j) {
        Some(
            RestoreError::DuplicateChannelId(
                s.channels[spec_first_channel_dup(s.channels)].offer.channel_id.0,
            ),
        )
    } else if exists|j: int| 0 <= j < s.gpadls.len() && spec_gpadl_dup_at(s.gpadls, j) {
        Some(RestoreError::DuplicateGpadlId(s.gpadls[spec_first_gpadl_dup(s.gpadls)].gpadl_id))
    } else {
        None
    }
}

/// A saved connection this build accepts: its version is supported and
/// its feature mask within what that version allows.
pub open spec fn spec_connection_ok(s: SavedStateView) -> bool {
    match s.connection {
        Some(c) => spec_version_of_number(c.version) is Some && c.feature_flags
            & spec_supported_mask(spec_version_of_number(c.version)->Some_0) == c.feature_flags,
        None => true,
    }
}

/// The version a valid saved connection rehydrates to.
pub open spec fn spec_restored_version(c: SavedConnection) -> VersionInfo {
    VersionInfo {
        version: match spec_version_of_number(c.version) {
            Some(v) => v,
            None => Version::Iron,
        },
        feature_flags: FeatureFlags(c.feature_flags),
    }
}

/// Whether a saved channel with this wire id exists.
pub open spec fn spec_saved_channel_known(chs: Seq<SavedChannel>, cid: u32) -> bool {
    exists|i: int| 0 <= i < chs.len() && (#[trigger] chs[i]).offer.channel_id.0 == cid
}

/// The restored form of one saved channel.
pub open spec fn spec_restored_channel(c: SavedChannel) -> ChannelEntry {
    ChannelEntry {
        id: c.offer.channel_id,
        channel: Channel {
            offer: c.offer,
            state: if c.open {
                ChannelState::Opened
            } else {
                ChannelState::Offered
            },
            modify_response: None,
        },
    }
}

/// The restored channel registry, in saved order.
pub open spec fn spec_restored_channels(chs: Seq<SavedChannel>) -> Seq<ChannelEntry>
    decreases chs.len(),
{
    if chs.len() == 0 {
        Seq::<ChannelEntry>::empty()
    } else {
        spec_restored_channels(chs.drop_last()).push(spec_restored_channel(chs.last()))
    }
}

/// The offers handed back to the caller, in saved order.
pub open spec fn spec_restored_infos(chs: Seq<SavedChannel>) -> Seq<RestoredChannel>
    decreases chs.len(),
{
    if chs.len() == 0 {
        Seq::<RestoredChannel>::empty()
    } else {
        spec_restored_infos(chs.drop_last()).push(
            RestoredChannel {
                offer: OfferInfo { offer: chs.last().offer },
                open: chs.last().open,
            },
        )
    }
}

/// The restored form of one saved GPADL.
pub open spec fn spec_restored_gpadl(g: SavedGpadl) -> GpadlEntry {
    GpadlEntry {
        channel_id: ChannelId(g.channel_id),
        gpadl_id: GpadlId(g.gpadl_id),
        state: if g.tearing_down {
            GpadlState::TearingDown
        } else {
            GpadlState::Created
        },
    }
}

/// The restored GPADL registry, in saved order. A GPADL whose channel
/// is not among the saved channels is dropped: no record could ever
/// resolve it.
pub open spec fn spec_restored_gpadls(gps: Seq<SavedGpadl>, chs: Seq<SavedChannel>) -> Seq<
    GpadlEntry,
>
    decreases gps.len(),
{
    if gps.len() == 0 {
        Seq::<GpadlEntry>::empty()
    } else {
        let rest = spec_restored_gpadls(gps.drop_last(), chs);
        if spec_saved_channel_known(chs, gps.last().channel_id) {
            rest.push(spec_restored_gpadl(gps.last()))
        } else {
            rest
        }
    }
}

/// The pending teardowns a restored engine must expect confirmations
/// for: one per kept GPADL saved while tearing down.
pub open spec fn spec_restored_teardowns(gps: Seq<SavedGpadl>, chs: Seq<SavedChannel>) -> Seq<
    TeardownEntry,
>
    decreases gps.len(),
{
    if gps.len() == 0 {
        Seq::<TeardownEntry>::empty()
    } else {
        let rest = spec_restored_teardowns(gps.drop_last(), chs);
        if spec_saved_channel_known(chs, gps.last().channel_id) && gps.last().tearing_down {
            rest.push(
                TeardownEntry {
                    gpadl_id: GpadlId(gps.last().gpadl_id),
                    channel_id: Some(ChannelId(gps.last().channel_id)),
                },
            )
        } else {
            rest
        }
    }
}

/// The engine a valid snapshot rehydrates to.
pub open spec fn spec_restored_task(t: ClientTask, s: SavedStateView) -> bool {
    &&& t.state == match s.connection {
        Some(c) => ClientState::Connected(spec_restored_version(c)),
        None => ClientState::Disconnected,
    }
    &&& t.connect_request == match s.connection {
        Some(c) => Some(
            InitiateContactRequest {
                target_message_vp: c.target_message_vp,
                monitor_page: c.monitor_page,
                client_id: c.client_id,
            },
        ),
        None => None,
    }
    &&& t.modify_request is None
    &&& t.channels@ == spec_restored_channels(s.channels)
    &&& t.gpadls@ == spec_restored_gpadls(s.gpadls, s.channels)
    &&& t.teardown_gpadls@ == spec_restored_teardowns(s.gpadls, s.channels)
}

/// The restored channel registry converts the saved one entry by
/// entry, in order.
pub proof fn lemma_restored_channels_props(chs: Seq<SavedChannel>)
    ensures
        spec_restored_channels(chs).len() == chs.len(),
        forall|i: int|
            0 <= i < chs.len() ==> #[trigger] spec_restored_channels(chs)[i]
                == spec_restored_channel(chs[i]),
    decreases chs.len(),
{
    if chs.len() > 0 {
        lemma_restored_channels_props(chs.drop_last());
        assert(forall|i: int| 0 <= i < chs.len() - 1 ==> chs.drop_last()[i] == chs[i]);
    }
}

/// The restored offer list converts the saved channels entry by
/// entry, in order.
pub proof fn lemma_restored_infos_props(chs: Seq<SavedChannel>)
    ensures
        spec_restored_infos(chs).len() == chs.len(),
        forall|i: int|
            0 <= i < chs.len() ==> #[trigger] spec_restored_infos(chs)[i] == (RestoredChannel {
                offer: OfferInfo { offer: chs[i].offer },
                open: chs[i].open,
            }),
    decreases chs.len(),
{
    if chs.len() > 0 {
        lemma_restored_infos_props(chs.drop_last());
        assert(forall|i: int| 0 <= i < chs.len() - 1 ==> chs.drop_last()[i] == chs[i]);
    }
}

/// Structure of the restored GPADL registry and pending teardowns:
/// ids stay pairwise distinct, every kept record's channel is saved,
/// every record's id comes from the snapshot, and a record is
/// `TearingDown` exactly when a pending teardown names its channel.
#[verifier::rlimit(100)]
#[verifier::spinoff_prover]
pub proof fn lemma_restored_gpadls_props(gps: Seq<SavedGpadl>, chs: Seq<SavedChannel>)
    requires
        forall|i: int, j: int| 0 <= i < j < gps.len() ==> gps[i].gpadl_id != gps[j].gpadl_id,
    ensures
        ({
            let rg = spec_restored_gpadls(gps, chs);
            let rt = spec_restored_teardowns(gps, chs);
            &&& forall|p: int|
                0 <= p < rg.len() ==> exists|m: int|
                    0 <= m < gps.len() && (#[trigger] rg[p]).gpadl_id.0 == gps[m].gpadl_id
            &&& forall|p: int, q: int| 0 <= p < q < rg.len() ==> rg[p].gpadl_id != rg[q].gpadl_id
            &&& forall|p: int|
                0 <= p < rg.len() ==> spec_saved_channel_known(
                    chs,
                    (#[trigger] rg[p]).channel_id.0,
                )
            &&& forall|j: int|
                0 <= j < rt.len() ==> exists|m: int|
                    0 <= m < gps.len() && (#[trigger] rt[j]).gpadl_id.0 == gps[m].gpadl_id
            &&& forall|j: int, j2: int| 0 <= j < j2 < rt.len() ==> rt[j].gpadl_id != rt[j2].gpadl_id
            &&& forall|p: int|
                0 <= p < rg.len() && (#[trigger] rg[p]).state is TearingDown ==> exists|j: int|
                    0 <= j < rt.len() && (#[trigger] rt[j]).gpadl_id == rg[p].gpadl_id
                        && rt[j].channel_id == Some(rg[p].channel_id)
            &&& forall|j: int|
                0 <= j < rt.len() ==> ((#[trigger] rt[j]).channel_id is Some && exists|p: int|
                    0 <= p < rg.len() && (#[trigger] rg[p]).gpadl_id == rt[j].gpadl_id
                        && rg[p].state is TearingDown && rt[j].channel_id == Some(
                        rg[p].channel_id,
                    ))
        }),
    decreases gps.len(),
{
    if gps.len() > 0 {
        let pre = gps.drop_last();
        lemma_restored_gpadls_props(pre, chs);
        assert(forall|i: int| 0 <= i < gps.len() - 1 ==> pre[i] == gps[i]);
        let g = gps.last();
        let rg0 = spec_restored_gpadls(pre, chs);
        let rt0 = spec_restored_teardowns(pre, chs);
        let rg = spec_restored_gpadls(gps, chs);
        let rt = spec_restored_teardowns(gps, chs);
        if spec_saved_channel_known(chs, g.channel_id) {
            assert forall|p: int, q: int|
                0 <= p < q < rg.len() implies rg[p].gpadl_id != rg[q].gpadl_id by {
                if q == rg.len() - 1 {
                    let m = choose|m: int|
                        0 <= m < pre.len() && (#[trigger] rg0[p]).gpadl_id.0 == pre[m].gpadl_id;
                    assert(gps[m].gpadl_id != gps[gps.len() - 1].gpadl_id);
                }
            }
            if g.tearing_down {
                assert forall|j: int, j2: int|
                    0 <= j < j2 < rt.len() implies rt[j].gpadl_id != rt[j2].gpadl_id by {
                    if j2 == rt.len() - 1 {
                        let m = choose|m: int|
                            0 <= m < pre.len() && (#[trigger] rt0[j]).gpadl_id.0 == pre[m].gpadl_id;
                        assert(gps[m].gpadl_id != gps[gps.len() - 1].gpadl_id);
                    }
                }
            }
            assert forall|p: int|
                0 <= p < rg.len() && (#[trigger] rg[p]).state is TearingDown implies exists|j: int|
                0 <= j < rt.len() && (#[trigger] rt[j]).gpadl_id == rg[p].gpadl_id
                    && rt[j].channel_id == Some(rg[p].channel_id) by {
                if p == rg.len() - 1 {
                    assert(g.tearing_down);
                    assert(rt[rt.len() - 1].gpadl_id == rg[p].gpadl_id && rt[rt.len() - 1].channel_id
                        == Some(rg[p].channel_id));
                } else {
                    assert(rg0[p].state is TearingDown);
                    let j = choose|j: int|
                        0 <= j < rt0.len() && (#[trigger] rt0[j]).gpadl_id == rg0[p].gpadl_id
                            && rt0[j].channel_id == Some(rg0[p].channel_id);
                    assert(rt[j] == rt0[j]);
                }
            }
            assert forall|j: int|
                0 <= j < rt.len() implies ((#[trigger] rt[j]).channel_id is Some && exists|p: int|
                0 <= p < rg.len() && (#[trigger] rg[p]).gpadl_id == rt[j].gpadl_id && rg[p].state
                    is TearingDown && rt[j].channel_id == Some(rg[p].channel_id)) by {
                if g.tearing_down && j == rt.len() - 1 {
                    assert(rg[rg.len() - 1].gpadl_id == rt[j].gpadl_id && rg[rg.len() - 1].state
                        is TearingDown && rt[j].channel_id == Some(rg[rg.len() - 1].channel_id));
                } else {
                    assert(rt0[j].channel_id is Some);
                    let p = choose|p: int|
                        0 <= p < rg0.len() && (#[trigger] rg0[p]).gpadl_id == rt0[j].gpadl_id
                            && rg0[p].state is TearingDown && rt0[j].channel_id == Some(
                            rg0[p].channel_id,
                        );
                    assert(rg[p] == rg0[p]);
                }
            }
        }
    }
}

impl ClientTask {
    /// Takes a snapshot of the engine. Meaningful while the message
    /// pump is stopped; the engine is not changed.
    pub fn handle_save(&self) -> (r: SavedState)
        ensures
            r@ == spec_save(*self),
    {
        let connection = match self.state.get_version() {
            Some(v) => match self.connect_request {
                Some(cr) => Some(
                    SavedConnection {
                        version: version_number(v.version),
                        feature_flags: v.feature_flags.0,
                        target_message_vp: cr.target_message_vp,
                        monitor_page: cr.monitor_page,
                        client_id: cr.client_id,
                    },
                ),
                None => None,
            },
            None => None,
        };
        let mut channels: Vec<SavedChannel> = Vec::new();
        let n = self.channels.len();
        let mut i: usize = 0;
        proof {
            assert(self.channels@.subrange(0, 0) =~= Seq::<ChannelEntry>::empty());
        }
        while i < n
            invariant
                i <= n,
                n == self.channels@.len(),
                channels@ == spec_saved_channels(self.channels@.subrange(0, i as int)),
            decreases n - i,
        {
            let e = self.channels[i];
            channels.push(SavedChannel { offer: e.channel.offer, open: matches!(e.channel.state, ChannelState::Opened) });
            proof {
                let prefix = self.channels@.subrange(0, (i + 1) as int);
                assert(prefix.drop_last() =~= self.channels@.subrange(0, i as int));
                assert(prefix.last() == self.channels@[i as int]);
            }
            i = i + 1;
        }
        proof {
            assert(self.channels@.subrange(0, n as int) =~= self.channels@);
        }
        let mut gpadls: Vec<SavedGpadl> = Vec::new();
        let m = self.gpadls.len();
        let mut j: usize = 0;
        proof {
            assert(self.gpadls@.subrange(0, 0) =~= Seq::<GpadlEntry>::empty());
        }
        while j < m
            invariant
                j <= m,
                m == self.gpadls@.len(),
                gpadls@ == spec_saved_gpadls(self.gpadls@.subrange(0, j as int)),
            decreases m - j,
        {
            let g = self.gpadls[j];
            if !matches!(g.state, GpadlState::Offered(_)) {
                gpadls.push(
                    SavedGpadl {
                        channel_id: g.channel_id.0,
                        gpadl_id: g.gpadl_id.0,
                        tearing_down: matches!(g.state, GpadlState::TearingDown),
                    },
                );
            }
            proof {
                let prefix = self.gpadls@.subrange(0, (j + 1) as int);
                assert(prefix.drop_last() =~= self.gpadls@.subrange(0, j as int));
                assert(prefix.last() == self.gpadls@[j as int]);
            }
            j = j + 1;
        }
        proof {
            assert(self.gpadls@.subrange(0, m as int) =~= self.gpadls@);
        }
        SavedState { connection, channels, gpadls }
    }

    /// Rehydrates a snapshot into a fresh engine. Fails with the first
    /// reason `spec_restore_check` finds; on success the engine holds
    /// exactly the restored registries and the caller receives each
    /// channel's offer with its open-at-save bit.
    pub fn handle_restore(&mut self, s: &SavedState) -> (r: Result<
        (Option<VersionInfo>, Vec<RestoredChannel>),
        RestoreError,
    >)
        requires
            old(self).state is Disconnected,
            old(self).channels@.len() == 0,
            old(self).gpadls@.len() == 0,
            old(self).teardown_gpadls@.len() == 0,
        ensures
            match spec_restore_check(s@) {
                Some(e) => *final(self) == *old(self) && (r matches Err(e2) && e2 == e),
                None => {
                    &&& final(self).wf()
                    &&& spec_restored_task(*final(self), s@)
                    &&& r matches Ok(pair) && pair.0 == (match s@.connection {
                        Some(c) => Some(spec_restored_version(c)),
                        None => None::<VersionInfo>,
                    }) && pair.1@ == spec_restored_infos(s@.channels)
                },
            },
    {
        let vi_opt: Option<VersionInfo> = match &s.connection {
            Some(c) => {
                let ver = if c.version == version_number(Version::Copper) {
                    Version::Copper
                } else if c.version == version_number(Version::Iron) {
                    Version::Iron
                } else {
                    return Err(RestoreError::UnsupportedVersion(c.version));
                };
                let mask = if matches!(ver, Version::Copper) {
                    SUPPORTED_FEATURE_MASK
                } else {
                    0
                };
                if c.feature_flags & mask != c.feature_flags {
                    return Err(RestoreError::UnsupportedFeatureFlags(c.feature_flags));
                }
                Some(VersionInfo { version: ver, feature_flags: FeatureFlags(c.feature_flags) })
            },
            None => None,
        };
        let n = s.channels.len();
        let mut j: usize = 0;
        while j < n
            invariant
                j <= n,
                n == s.channels@.len(),
                spec_connection_ok(s@),
                forall|q: int| 0 <= q < j ==> !spec_channel_dup_at(s.channels@, q),
            decreases n - j,
        {
            let mut i: usize = 0;
            while i < j
                invariant
                    i <= j < n,
                    n == s.channels@.len(),
                    spec_connection_ok(s@),
                    forall|q: int| 0 <= q < j ==> !spec_channel_dup_at(s.channels@, q),
                    forall|p: int|
                        0 <= p < i ==> s.channels@[p].offer.channel_id.0
                            != s.channels@[j as int].offer.channel_id.0,
                decreases j - i,
            {
                if s.channels[i].offer.channel_id.0 == s.channels[j].offer.channel_id.0 {
                    proof {
                        assert(spec_channel_dup_at(s.channels@, j as int));
                        assert(forall|q: int|
                            0 <= q < j as int ==> !spec_channel_dup_at(s.channels@, q));
                        assert(exists|jj: int|
                            0 <= jj < s.channels@.len() && spec_channel_dup_at(s.channels@, jj) && (
                            forall|q: int| 0 <= q < jj ==> !spec_channel_dup_at(s.channels@, q)));
                        let j0 = spec_first_channel_dup(s.channels@);
                        assert(0 <= j0 < s.channels@.len() && spec_channel_dup_at(s.channels@, j0)
                            && (forall|q: int| 0 <= q < j0 ==> !spec_channel_dup_at(s.channels@, q)));
                        if j0 < j as int {
                            assert(!spec_channel_dup_at(s.channels@, j0));
                        } else if (j as int) < j0 {
                            assert(!spec_channel_dup_at(s.channels@, j as int));
                        }
                        assert(j0 == j as int);
                        assert(!(s@.connection matches Some(c) && spec_version_of_number(c.version)
                            is None));
                        assert(!(s@.connection matches Some(c) && c.feature_flags
                            & spec_supported_mask(spec_version_of_number(c.version)->Some_0)
                            != c.feature_flags));
                        assert(exists|jj: int|
                            0 <= jj < s@.channels.len() && spec_channel_dup_at(s@.channels, jj));
                        assert(spec_restore_check(s@) is Some);
                        assert(spec_restore_check(s@)->Some_0 == RestoreError::DuplicateChannelId(
                            s.channels@[j as int].offer.channel_id.0,
                        ));
                    }
                    return Err(RestoreError::DuplicateChannelId(s.channels[j].offer.channel_id.0));
                }
                i = i + 1;
            }
            j = j + 1;
        }
        let gn = s.gpadls.len();
        let mut j: usize = 0;
        while j < gn
            invariant
                j <= gn,
                gn == s.gpadls@.len(),
                n == s.channels@.len(),
                spec_connection_ok(s@),
                forall|q: int| 0 <= q < n ==> !spec_channel_dup_at(s.channels@, q),
                forall|q: int| 0 <= q < j ==> !spec_gpadl_dup_at(s.gpadls@, q),
            decreases gn - j,
        {
            let mut i: usize = 0;
            while i < j
                invariant
                    i <= j < gn,
                    gn == s.gpadls@.len(),
                    n == s.channels@.len(),
                    spec_connection_ok(s@),
                    forall|q: int| 0 <= q < n ==> !spec_channel_dup_at(s.channels@, q),
                    forall|q: int| 0 <= q < j ==> !spec_gpadl_dup_at(s.gpadls@, q),
                    forall|p: int|
                        0 <= p < i ==> s.gpadls@[p].gpadl_id != s.gpadls@[j as int].gpadl_id,
                decreases j - i,
            {
                if s.gpadls[i].gpadl_id == s.gpadls[j].gpadl_id {
                    proof {
                        assert(spec_gpadl_dup_at(s.gpadls@, j as int));
                        assert(forall|q: int|
                            0 <= q < j as int ==> !spec_gpadl_dup_at(s.gpadls@, q));
                        assert(exists|jj: int|
                            0 <= jj < s.gpadls@.len() && spec_gpadl_dup_at(s.gpadls@, jj) && (
                            forall|q: int| 0 <= q < jj ==> !spec_gpadl_dup_at(s.gpadls@, q)));
                        let j0 = spec_first_gpadl_dup(s.gpadls@);
                        assert(0 <= j0 < s.gpadls@.len() && spec_gpadl_dup_at(s.gpadls@, j0) && (
                        forall|q: int| 0 <= q < j0 ==> !spec_gpadl_dup_at(s.gpadls@, q)));
                        if j0 < j as int {
                            assert(!spec_gpadl_dup_at(s.gpadls@, j0));
                        } else if (j as int) < j0 {
                            assert(!spec_gpadl_dup_at(s.gpadls@, j as int));
                        }
                        assert(j0 == j as int);
                        assert(!(s@.connection matches Some(c) && spec_version_of_number(c.version)
                            is None));
                        assert(!(s@.connection matches Some(c) && c.feature_flags
                            & spec_supported_mask(spec_version_of_number(c.version)->Some_0)
                            != c.feature_flags));
                        assert(!(exists|jj: int|
                            0 <= jj < s@.channels.len() && spec_channel_dup_at(s@.channels, jj)));
                        assert(exists|jj: int|
                            0 <= jj < s@.gpadls.len() && spec_gpadl_dup_at(s@.gpadls, jj));
                        assert(spec_restore_check(s@) is Some);
                        assert(spec_restore_check(s@)->Some_0 == RestoreError::DuplicateGpadlId(
                            s.gpadls@[j as int].gpadl_id,
                        ));
                    }
                    return Err(RestoreError::DuplicateGpadlId(s.gpadls[j].gpadl_id));
                }
                i = i + 1;
            }
            j = j + 1;
        }
        let mut channels: Vec<ChannelEntry> = Vec::new();
        let mut infos: Vec<RestoredChannel> = Vec::new();
        let mut i: usize = 0;
        proof {
            assert(s.channels@.subrange(0, 0) =~= Seq::<SavedChannel>::empty());
        }
        while i < n
            invariant
                i <= n,
                n == s.channels@.len(),
                channels@ == spec_restored_channels(s.channels@.subrange(0, i as int)),
                infos@ == spec_restored_infos(s.channels@.subrange(0, i as int)),
            decreases n - i,
        {
            let c = s.channels[i];
            channels.push(
                ChannelEntry {
                    id: c.offer.channel_id,
                    channel: Channel {
                        offer: c.offer,
                        state: if c.open {
                            ChannelState::Opened
                        } else {
                            ChannelState::Offered
                        },
                        modify_response: None,
                    },
                },
            );
            infos.push(RestoredChannel { offer: OfferInfo { offer: c.offer }, open: c.open });
            proof {
                let prefix = s.channels@.subrange(0, (i + 1) as int);
                assert(prefix.drop_last() =~= s.channels@.subrange(0, i as int));
                assert(prefix.last() == s.channels@[i as int]);
            }
            i = i + 1;
        }
        proof {
            assert(s.channels@.subrange(0, n as int) =~= s.channels@);
        }
        let mut gpadls: Vec<GpadlEntry> = Vec::new();
        let mut teardowns: Vec<TeardownEntry> = Vec::new();
        let mut i: usize = 0;
        proof {
            assert(s.gpadls@.subrange(0, 0) =~= Seq::<SavedGpadl>::empty());
        }
        while i < gn
            invariant
                i <= gn,
                gn == s.gpadls@.len(),
                gpadls@ == spec_restored_gpadls(s.gpadls@.subrange(0, i as int), s.channels@),
                teardowns@ == spec_restored_teardowns(s.gpadls@.subrange(0, i as int), s.channels@),
            decreases gn - i,
        {
            let g = s.gpadls[i];
            if saved_channel_known(&s.channels, g.channel_id) {
                gpadls.push(
                    GpadlEntry {
                        channel_id: ChannelId(g.channel_id),
                        gpadl_id: GpadlId(g.gpadl_id),
                        state: if g.tearing_down {
                            GpadlState::TearingDown
                        } else {
                            GpadlState::Created
                        },
                    },
                );
                if g.tearing_down {
                    teardowns.push(
                        TeardownEntry {
                            gpadl_id: GpadlId(g.gpadl_id),
                            channel_id: Some(ChannelId(g.channel_id)),
                        },
                    );
                }
            }
            proof {
                let prefix = s.gpadls@.subrange(0, (i + 1) as int);
                assert(prefix.drop_last() =~= s.gpadls@.subrange(0, i as int));
                assert(prefix.last() == s.gpadls@[i as int]);
            }
            i = i + 1;
        }
        proof {
            assert(s.gpadls@.subrange(0, gn as int) =~= s.gpadls@);
        }
        self.state = match vi_opt {
            Some(vi) => ClientState::Connected(vi),
            None => ClientState::Disconnected,
        };
        self.connect_request = match &s.connection {
            Some(c) => Some(
                InitiateContactRequest {
                    target_message_vp: c.target_message_vp,
                    monitor_page: c.monitor_page,
                    client_id: c.client_id,
                },
            ),
            None => None,
        };
        self.modify_request = None;
        self.channels = channels;
        self.gpadls = gpadls;
        self.teardown_gpadls = teardowns;
        proof {
            lemma_restored_channels_props(s.channels@);
            assert forall|a: int, b: int|
                0 <= a < b < s.gpadls@.len() implies s.gpadls@[a].gpadl_id
                != s.gpadls@[b].gpadl_id by {
                assert(!spec_gpadl_dup_at(s.gpadls@, b));
            }
            lemma_restored_gpadls_props(s.gpadls@, s.channels@);
            match s@.connection {
                Some(c) => {
                    let f = c.feature_flags;
                    assert(f & 0u32 == 0u32) by (bit_vector);
                    assert(0u32 & 15u32 == 0u32) by (bit_vector);
                    assert(SUPPORTED_FEATURE_MASK == 15u32);
                },
                None => {},
            }
            assert forall|p: int, q: int|
                0 <= p < q < self.channels@.len() implies self.channels@[p].id
                != self.channels@[q].id by {
                assert(!spec_channel_dup_at(s.channels@, q));
                assert(self.channels@[p] == spec_restored_channel(s.channels@[p]));
                assert(self.channels@[q] == spec_restored_channel(s.channels@[q]));
                assert(s.channels@[p].offer.channel_id.0 != s.channels@[q].offer.channel_id.0);
            }
            assert forall|p: int|
                0 <= p < self.gpadls@.len() implies spec_has_channel(
                self.channels@,
                #[trigger] self.gpadls@[p].channel_id,
            ) by {
                assert(spec_saved_channel_known(s.channels@, self.gpadls@[p].channel_id.0));
                let w = choose|w: int|
                    0 <= w < s.channels@.len() && (#[trigger] s.channels@[w]).offer.channel_id.0
                        == self.gpadls@[p].channel_id.0;
                assert(self.channels@[w] == spec_restored_channel(s.channels@[w]));
                assert(self.channels@[w].id == self.gpadls@[p].channel_id);
            }
            assert(self.wf());
        }
        Ok((vi_opt, infos))
    }
}

/// The saved channel list converts the registry entry by entry, in
/// order.
pub proof fn lemma_saved_channels_props(chs: Seq<ChannelEntry>)
    ensures
        spec_saved_channels(chs).len() == chs.len(),
        forall|i: int|
            0 <= i < chs.len() ==> #[trigger] spec_saved_channels(chs)[i] == spec_saved_channel(
                chs[i],
            ),
    decreases chs.len(),
{
    if chs.len() > 0 {
        lemma_saved_channels_props(chs.drop_last());
        assert(forall|i: int| 0 <= i < chs.len() - 1 ==> chs.drop_last()[i] == chs[i]);
    }
}

/// Every saved GPADL is the saved form of some settled registry
/// record, and when the registry's ids are pairwise distinct so are
/// the saved ones.
pub proof fn lemma_saved_gpadls_props(gps: Seq<GpadlEntry>)
    requires
        forall|i: int, j: int| 0 <= i < j < gps.len() ==> gps[i].gpadl_id != gps[j].gpadl_id,
    ensures
        ({
            let sg = spec_saved_gpadls(gps);
            &&& forall|p: int|
                0 <= p < sg.len() ==> exists|m: int|
                    0 <= m < gps.len() && #[trigger] sg[p] == spec_saved_gpadl(gps[m])
            &&& forall|p: int, q: int| 0 <= p < q < sg.len() ==> sg[p].gpadl_id != sg[q].gpadl_id
        }),
    decreases gps.len(),
{
    if gps.len() > 0 {
        let pre = gps.drop_last();
        lemma_saved_gpadls_props(pre);
        assert(forall|i: int| 0 <= i < gps.len() - 1 ==> pre[i] == gps[i]);
        let sg0 = spec_saved_gpadls(pre);
        let sg = spec_saved_gpadls(gps);
        if !(gps.last().state is Offered) {
            assert forall|p: int|
                0 <= p < sg.len() implies exists|m: int|
                0 <= m < gps.len() && #[trigger] sg[p] == spec_saved_gpadl(gps[m]) by {
                if p == sg.len() - 1 {
                    assert(sg[p] == spec_saved_gpadl(gps[gps.len() - 1]));
                } else {
                    let m = choose|m: int|
                        0 <= m < pre.len() && #[trigger] sg0[p] == spec_saved_gpadl(pre[m]);
                    assert(sg[p] == spec_saved_gpadl(gps[m]));
                }
            }
            assert forall|p: int, q: int|
                0 <= p < q < sg.len() implies sg[p].gpadl_id != sg[q].gpadl_id by {
                if q == sg.len() - 1 {
                    let m = choose|m: int|
                        0 <= m < pre.len() && #[trigger] sg0[p] == spec_saved_gpadl(pre[m]);
                    assert(gps[m].gpadl_id != gps[gps.len() - 1].gpadl_id);
                    assert(sg[p].gpadl_id == gps[m].gpadl_id.0);
                }
            }
        }
    }
}

/// Rehydrating a saved channel list and saving it again is the
/// identity.
pub proof fn lemma_channels_roundtrip(chs: Seq<SavedChannel>)
    ensures
        spec_saved_channels(spec_restored_channels(chs)) == chs,
    decreases chs.len(),
{
    if chs.len() == 0 {
        assert(spec_saved_channels(spec_restored_channels(chs)) =~= chs);
    } else {
        lemma_channels_roundtrip(chs.drop_last());
        let rc = spec_restored_channels(chs);
        assert(rc.drop_last() =~= spec_restored_channels(chs.drop_last()));
        assert(rc.last() == spec_restored_channel(chs.last()));
        assert(spec_saved_channel(spec_restored_channel(chs.last())) == chs.last());
        assert(spec_saved_channels(rc) =~= chs);
    }
}

/// Rehydrating a saved GPADL list whose channels are all saved and
/// saving it again is the identity.
pub proof fn lemma_gpadls_roundtrip(gps: Seq<SavedGpadl>, chs: Seq<SavedChannel>)
    requires
        forall|p: int|
            0 <= p < gps.len() ==> spec_saved_channel_known(chs, (#[trigger] gps[p]).channel_id),
    ensures
        spec_saved_gpadls(spec_restored_gpadls(gps, chs)) == gps,
    decreases gps.len(),
{
    if gps.len() == 0 {
        assert(spec_saved_gpadls(spec_restored_gpadls(gps, chs)) =~= gps);
    } else {
        let pre = gps.drop_last();
        assert(forall|i: int| 0 <= i < gps.len() - 1 ==> pre[i] == gps[i]);
        lemma_gpadls_roundtrip(pre, chs);
        let rg = spec_restored_gpadls(gps, chs);
        assert(spec_saved_channel_known(chs, gps[gps.len() - 1].channel_id));
        assert(rg.drop_last() =~= spec_restored_gpadls(pre, chs));
        assert(rg.last() == spec_restored_gpadl(gps.last()));
        assert(!(spec_restored_gpadl(gps.last()).state is Offered));
        assert(spec_saved_gpadl(spec_restored_gpadl(gps.last())) == gps.last());
        assert(spec_saved_gpadls(rg) =~= gps);
    }
}

/// Law: a snapshot of a well-formed engine always rehydrates, and a
/// snapshot taken right after rehydrating it into a fresh engine is
/// identical to the original — save immediately followed by restore
/// round-trips.
pub proof fn lemma_save_restore_roundtrip(t: ClientTask, t2: ClientTask)
    requires
        t.wf(),
        spec_restored_task(t2, spec_save(t)),
    ensures
        spec_restore_check(spec_save(t)) is None,
        spec_save(t2) == spec_save(t),
{
    let s = spec_save(t);
    lemma_saved_channels_props(t.channels@);
    lemma_saved_gpadls_props(t.gpadls@);
    // the saved connection tuple is acceptable
    match t.state.spec_version() {
        Some(v) => {
            assert(spec_version_of_number(spec_version_number(v.version)) == Some(v.version));
            assert(spec_version_ok(v));
            if v.version == Version::Copper {
                assert(SUPPORTED_FEATURE_MASK == 15u32);
            } else {
                assert(v.feature_flags.0 == 0);
                assert(0u32 & 0u32 == 0u32) by (bit_vector);
            }
            assert(spec_connection_ok(s));
        },
        None => {},
    }
    // no saved channel id repeats
    assert forall|j: int| 0 <= j < s.channels.len() implies !spec_channel_dup_at(s.channels, j) by {
        if spec_channel_dup_at(s.channels, j) {
            let i = choose|i: int|
                0 <= i < j && (#[trigger] s.channels[i]).offer.channel_id.0
                    == s.channels[j].offer.channel_id.0;
            assert(s.channels[i] == spec_saved_channel(t.channels@[i]));
            assert(s.channels[j] == spec_saved_channel(t.channels@[j]));
            assert(t.channels@[i].id == t.channels@[i].channel.offer.channel_id);
            assert(t.channels@[j].id == t.channels@[j].channel.offer.channel_id);
            assert(t.channels@[i].id != t.channels@[j].id);
        }
    }
    // no saved GPADL id repeats
    assert forall|j: int| 0 <= j < s.gpadls.len() implies !spec_gpadl_dup_at(s.gpadls, j) by {
        if spec_gpadl_dup_at(s.gpadls, j) {
            let i = choose|i: int|
                0 <= i < j && (#[trigger] s.gpadls[i]).gpadl_id == s.gpadls[j].gpadl_id;
        }
    }
    assert(spec_restore_check(s) is None);
    // the snapshot of the rehydrated engine
    match t.state.spec_version() {
        Some(v) => {
            assert(spec_saved_connection(t2) == s.connection);
        },
        None => {
            assert(t2.state is Disconnected);
        },
    }
    lemma_channels_roundtrip(s.channels);
    assert forall|p: int|
        0 <= p < s.gpadls.len() implies spec_saved_channel_known(
        s.channels,
        (#[trigger] s.gpadls[p]).channel_id,
    ) by {
        let m = choose|m: int|
            0 <= m < t.gpadls@.len() && #[trigger] s.gpadls[p] == spec_saved_gpadl(t.gpadls@[m]);
        assert(spec_has_channel(t.channels@, t.gpadls@[m].channel_id));
        let w = choose|w: int|
            0 <= w < t.channels@.len() && (#[trigger] t.channels@[w]).id == t.gpadls@[m].channel_id;
        assert(s.channels[w] == spec_saved_channel(t.channels@[w]));
        assert(s.channels[w].offer.channel_id.0 == s.gpadls[p].channel_id);
    }
    lemma_gpadls_roundtrip(s.gpadls, s.channels);
    assert(spec_save(t2).channels == s.channels);
    assert(spec_save(t2).gpadls == s.gpadls);
}

/// Whether the saved channel list holds this wire id.
fn saved_channel_known(chs: &Vec<SavedChannel>, cid: u32) -> (r: bool)
    ensures
        r == spec_saved_channel_known(chs@, cid),
{
    let n = chs.len();
    let mut i: usize = 0;
    while i < n
        invariant
            i <= n,
            n == chs@.len(),
            forall|j: int| 0 <= j < i ==> (#[trigger] chs@[j]).offer.channel_id.0 != cid,
        decreases n - i,
    {
        if chs[i].offer.channel_id.0 == cid {
            return true;
        }
        i = i + 1;
    }
    false
}

} // verus!
