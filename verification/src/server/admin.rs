//! Server administration: background activities, butler tasks,
//! updater releases, and the bandwidth-statistics query.

use vstd::prelude::*;

use crate::error::{Error, Result};
use crate::headers::opt_view;
use crate::text::{dec_chars, drop_empty, fmt_i64, fmt_u64, non_empty_view, owned, signed_dec_chars};
use crate::time::{chrono_timestamp_ok, representable_seconds};
use crate::urls::{ParsedUrl, append_query, join_url, pairs_view, parsed_view, url_join, with_query};

verus! {

/// Filter options for the bandwidth statistics listing.
#[derive(Debug, Clone, Default)]
#[non_exhaustive]
pub struct BandwidthOptions {
    /// Filter to one user account.
    pub account_id: Option<u64>,
    /// Lower bound on sample time (epoch seconds).
    pub min_at_epoch: Option<i64>,
    /// Upper bound on sample time (epoch seconds).
    pub max_at_epoch: Option<i64>,
    /// Sample timespan code (`1=months`, `2=weeks`, `3=days`,
    /// `4=hours`, `6=seconds`).
    pub timespan: Option<u32>,
}

/// The query pairs of a bandwidth request, in order: `accountID`,
/// `at>`, `at<`, `timespan`, each only when set.
pub open spec fn bandwidth_pairs(o: BandwidthOptions) -> Seq<(Seq<char>, Seq<char>)> {
    let a: Seq<(Seq<char>, Seq<char>)> = match o.account_id {
        Some(v) => seq![("accountID"@, dec_chars(v as nat))],
        None => seq![],
    };
    let b: Seq<(Seq<char>, Seq<char>)> = match o.min_at_epoch {
        Some(v) => seq![("at>"@, signed_dec_chars(v as int))],
        None => seq![],
    };
    let c: Seq<(Seq<char>, Seq<char>)> = match o.max_at_epoch {
        Some(v) => seq![("at<"@, signed_dec_chars(v as int))],
        None => seq![],
    };
    let d: Seq<(Seq<char>, Seq<char>)> = match o.timespan {
        Some(v) => seq![("timespan"@, dec_chars(v as nat))],
        None => seq![],
    };
    a + b + c + d
}

impl BandwidthOptions {
    /// Set [`Self::account_id`].
    pub fn with_account(self, account_id: u64) -> (r: Self)
        ensures
            r == (BandwidthOptions { account_id: Some(account_id), ..self }),
    {
        BandwidthOptions { account_id: Some(account_id), ..self }
    }

    /// Set [`Self::min_at_epoch`].
    pub fn with_min_at(self, epoch: i64) -> (r: Self)
        ensures
            r == (BandwidthOptions { min_at_epoch: Some(epoch), ..self }),
    {
        BandwidthOptions { min_at_epoch: Some(epoch), ..self }
    }

    /// Set [`Self::max_at_epoch`].
    pub fn with_max_at(self, epoch: i64) -> (r: Self)
        ensures
            r == (BandwidthOptions { max_at_epoch: Some(epoch), ..self }),
    {
        BandwidthOptions { max_at_epoch: Some(epoch), ..self }
    }

    /// Set [`Self::timespan`].
    pub fn with_timespan(self, ts: u32) -> (r: Self)
        ensures
            r == (BandwidthOptions { timespan: Some(ts), ..self }),
    {
        BandwidthOptions { timespan: Some(ts), ..self }
    }

    /// The query pairs for `/statistics/bandwidth`.
    pub fn query_pairs(&self) -> (v: Vec<(String, String)>)
        ensures
            pairs_view(v@) == bandwidth_pairs(*self),
    {
        let mut v: Vec<(String, String)> = Vec::new();
        if let Some(id) = self.account_id {
            v.push((owned("accountID"), fmt_u64(id)));
        }
        if let Some(min) = self.min_at_epoch {
            v.push((owned("at>"), fmt_i64(min)));
        }
        if let Some(max) = self.max_at_epoch {
            v.push((owned("at<"), fmt_i64(max)));
        }
        if let Some(ts) = self.timespan {
            v.push((owned("timespan"), fmt_u64(ts as u64)));
        }
        proof {
            assert(pairs_view(v@) =~= bandwidth_pairs(*self));
        }
        v
    }
}

/// The bandwidth-statistics URL for `opts` on the server at
/// `base_url`; fails with [`Error::Url`] when `/statistics/bandwidth`
/// does not join onto it.
pub fn bandwidth_url(base_url: &str, opts: &BandwidthOptions) -> (r: Result<ParsedUrl>)
    ensures
        match url_join(base_url@, "/statistics/bandwidth"@) {
            None => r matches Err(Error::Url(_)),
            Some(u) => r matches Ok(p) && parsed_view(p) == with_query(u, bandwidth_pairs(*opts)),
        },
{
    let joined = match join_url(base_url, "/statistics/bandwidth") {
        Ok(u) => u,
        Err(m) => {
            return Err(Error::Url(m));
        },
    };
    let pairs = opts.query_pairs();
    Ok(append_query(joined, &pairs))
}

/// A background activity of the server (library scan, …).
#[derive(Debug, Clone, PartialEq, Eq)]
#[non_exhaustive]
pub struct Activity {
    /// Activity id.
    pub uuid: String,
    /// Activity type (`library.update.section`, …).
    pub kind: String,
    /// Title.
    pub title: String,
    /// Subtitle.
    pub subtitle: Option<String>,
    /// Progress percentage.
    pub progress: u8,
    /// Can be cancelled.
    pub cancellable: bool,
}

/// An `<Activity>` element as decoded from the wire.
#[derive(Debug, Clone)]
pub struct ActivityDto {
    /// `uuid`.
    pub uuid: String,
    /// `type`.
    pub kind: String,
    /// `title`.
    pub title: String,
    /// `subtitle`.
    pub subtitle: Option<String>,
    /// `progress`.
    pub progress: u8,
    /// `cancellable`.
    pub cancellable: bool,
}

impl ActivityDto {
    /// The activity; an empty subtitle counts as none.
    pub fn into_domain(self) -> (a: Activity)
        ensures
            a.uuid@ == self.uuid@ && a.kind@ == self.kind@ && a.title@ == self.title@,
            opt_view(a.subtitle) == non_empty_view(self.subtitle),
            a.progress == self.progress && a.cancellable == self.cancellable,
    {
        Activity {
            uuid: self.uuid,
            kind: self.kind,
            title: self.title,
            subtitle: drop_empty(self.subtitle),
            progress: self.progress,
            cancellable: self.cancellable,
        }
    }
}

/// A scheduled maintenance task.
#[derive(Debug, Clone, PartialEq, Eq)]
#[non_exhaustive]
pub struct ButlerTask {
    /// Task name.
    pub name: String,
    /// Title.
    pub title: String,
    /// Description.
    pub description: String,
    /// Enabled.
    pub enabled: bool,
    /// Interval in days.
    pub interval_days: u32,
    /// Run at a random time in the window.
    pub schedule_randomized: bool,
}

/// A `<ButlerTask>` element as decoded from the wire.
#[derive(Debug, Clone)]
pub struct ButlerTaskDto {
    /// `name`.
    pub name: String,
    /// `title`.
    pub title: String,
    /// `description`.
    pub description: String,
    /// `enabled`.
    pub enabled: bool,
    /// `interval`.
    pub interval: u32,
    /// `scheduleRandomized`.
    pub schedule_randomized: bool,
}

impl ButlerTaskDto {
    /// The task; `interval` is the interval in days.
    pub fn into_domain(self) -> (t: ButlerTask)
        ensures
            t.name@ == self.name@ && t.title@ == self.title@
                && t.description@ == self.description@,
            t.enabled == self.enabled && t.interval_days == self.interval
                && t.schedule_randomized == self.schedule_randomized,
    {
        ButlerTask {
            name: self.name,
            title: self.title,
            description: self.description,
            enabled: self.enabled,
            interval_days: self.interval,
            schedule_randomized: self.schedule_randomized,
        }
    }
}

/// The updater's view of available releases.
#[derive(Debug, Clone, PartialEq, Eq, Default)]
#[non_exhaustive]
pub struct UpdaterStatus {
    /// Releases the updater knows of.
    pub releases: Vec<UpdateRelease>,
}

/// One release known to the updater.
#[derive(Debug, Clone, PartialEq, Eq)]
#[non_exhaustive]
pub struct UpdateRelease {
    /// Download key.
    pub download_key: Option<String>,
    /// Version string.
    pub version: String,
    /// What the release adds.
    pub added: Option<String>,
    /// What the release fixes.
    pub fixed: Option<String>,
    /// Download URL.
    pub download_url: Option<String>,
    /// Updater state.
    pub state: Option<String>,
}

/// A `<Release>` element as decoded from the wire.
#[derive(Debug, Clone)]
pub struct ReleaseDto {
    /// `key`.
    pub key: Option<String>,
    /// `version`.
    pub version: String,
    /// `added`.
    pub added: Option<String>,
    /// `fixed`.
    pub fixed: Option<String>,
    /// `downloadURL`.
    pub download_url: Option<String>,
    /// `state`.
    pub state: Option<String>,
}

/// `r` is the release the element `d` describes; empty optional
/// attributes count as absent.
pub open spec fn release_of(d: ReleaseDto, r: UpdateRelease) -> bool {
    &&& opt_view(r.download_key) == non_empty_view(d.key)
    &&& r.version@ == d.version@
    &&& opt_view(r.added) == non_empty_view(d.added)
    &&& opt_view(r.fixed) == non_empty_view(d.fixed)
    &&& opt_view(r.download_url) == non_empty_view(d.download_url)
    &&& opt_view(r.state) == non_empty_view(d.state)
}

impl ReleaseDto {
    /// The release; empty optional attributes count as absent.
    pub fn into_domain(self) -> (r: UpdateRelease)
        ensures
            release_of(self, r),
    {
        UpdateRelease {
            download_key: drop_empty(self.key),
            version: self.version,
            added: drop_empty(self.added),
            fixed: drop_empty(self.fixed),
            download_url: drop_empty(self.download_url),
            state: drop_empty(self.state),
        }
    }
}

/// One bandwidth sample.
#[derive(Debug, Clone, PartialEq, Eq)]
#[non_exhaustive]
pub struct BandwidthStat {
    /// Account responsible for the traffic.
    pub account_id: u64,
    /// Device on which the traffic happened.
    pub device_id: u64,
    /// Time of the sample (epoch seconds).
    pub at: Option<i64>,
    /// Bytes during the sample window.
    pub bytes: u64,
    /// The traffic stayed on the LAN.
    pub lan: bool,
    /// Sample timespan (`1` months … `6` seconds).
    pub timespan: u32,
}

/// A `<StatisticsBandwidth>` element as decoded from the wire.
#[derive(Debug, Clone)]
pub struct BandwidthDto {
    /// `accountID`.
    pub account_id: u64,
    /// `deviceID`.
    pub device_id: u64,
    /// `at` (epoch seconds, `0` when absent).
    pub at: i64,
    /// `bytes`.
    pub bytes: u64,
    /// `lan`.
    pub lan: bool,
    /// `timespan`.
    pub timespan: u32,
}

/// A sample time: `0` means none; otherwise the time when chrono can
/// represent it.
pub open spec fn sample_time(at: i64) -> Option<i64> {
    if at == 0 || !chrono_timestamp_ok(at) {
        None
    } else {
        Some(at)
    }
}

/// The time of a statistics sample, as [`sample_time`] reads it.
pub fn sample_time_of(at: i64) -> (r: Option<i64>)
    ensures
        r == sample_time(at),
{
    if at == 0 {
        None
    } else {
        representable_seconds(at)
    }
}

impl BandwidthDto {
    /// The sample this element describes.
    pub fn into_domain(self) -> (b: BandwidthStat)
        ensures
            b.account_id == self.account_id && b.device_id == self.device_id,
            b.at == sample_time(self.at),
            b.bytes == self.bytes && b.lan == self.lan && b.timespan == self.timespan,
    {
        let at = sample_time_of(self.at);
        BandwidthStat {
            account_id: self.account_id,
            device_id: self.device_id,
            at,
            bytes: self.bytes,
            lan: self.lan,
            timespan: self.timespan,
        }
    }
}

/// The updater status listing `releases`, each decoded.
pub fn updater_status_of(releases: Vec<ReleaseDto>) -> (u: UpdaterStatus)
    ensures
        u.releases@.len() == releases@.len(),
        forall|i: int|
            0 <= i < releases@.len() ==> #[trigger] release_of(releases@[i], u.releases@[i]),
{
    let ghost all = releases@;
    let n = releases.len();
    let mut rest = releases;
    let mut out: Vec<UpdateRelease> = Vec::new();
    let mut i: usize = 0;
    while rest.len() > 0
        invariant
            all.len() == n,
            i <= n,
            rest@ == all.skip(i as int),
            out@.len() == i,
            forall|j: int| 0 <= j < i ==> #[trigger] release_of(all[j], out@[j]),
        decreases rest@.len(),
    {
        let d = rest.remove(0);
        proof {
            assert(d == all[i as int]);
            assert(rest@ =~= all.skip(i + 1));
        }
        out.push(d.into_domain());
        i += 1;
    }
    UpdaterStatus { releases: out }
}

} // verus!
