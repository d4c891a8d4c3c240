//! Reading the status file of a Nagios daemon into typed records, and writing
//! external commands for the daemon.
//!
//! The library works on text: the caller reads the status file and hands over
//! what it holds, and appends to the command file what the library hands
//! back. `Nagrs` keeps the status that was read last and says when it is too
//! old to be served again.

pub mod assoc;
pub mod nagios;
pub mod number;
pub mod text;

use vstd::prelude::*;
use crate::nagios::cmd::{cmd_lines, cmd_strings, write_cmds, NagiosCmd};
use crate::nagios::{
    parsed, status_of, NagiosStatus, NagiosStatusView, StatusError, StatusErrorView,
};

verus! {

/// The two files of a daemon and the status read last from one of them.
#[derive(Debug)]
pub struct Nagrs<P> {
    command_file_path: P,
    status_file_path: P,
    max_cache_age: u64,
    status: Option<NagiosStatus>,
    last_loaded: i64,
}

/// What a `Nagrs` knows, apart from its paths.
pub struct CacheView {
    /// The number of seconds for which a status is served after it was read.
    pub max_cache_age: int,
    /// The status that is kept, if one is.
    pub status: Option<NagiosStatusView>,
    /// The time at which the status that is kept was read, in seconds.
    pub last_loaded: int,
}

impl CacheView {
    /// Whether the status file has to be read before a query at `now` can be
    /// answered: no status is kept, or the one that is kept was read
    /// `max_cache_age` seconds ago or earlier.
    pub open spec fn due(self, now: int) -> bool {
        self.status is None || now - self.last_loaded >= self.max_cache_age
    }

    /// The cache after `status` was read at `now`.
    pub open spec fn loaded(self, status: NagiosStatusView, now: int) -> CacheView {
        CacheView { status: Some(status), last_loaded: now, ..self }
    }

    /// The cache after commands were written: no status is kept.
    pub open spec fn invalidated(self) -> CacheView {
        CacheView { status: None, ..self }
    }

    /// The cache after a query at `now`, where the file holds `status`: it
    /// is read if it has to be, and else nothing changes.
    pub open spec fn queried(self, status: NagiosStatusView, now: int) -> CacheView {
        if self.due(now) {
            self.loaded(status, now)
        } else {
            self
        }
    }

    /// How often the file is read for queries at `times`, one after the
    /// other, where it holds `status` all the while.
    pub open spec fn readings(self, status: NagiosStatusView, times: Seq<int>) -> nat
        decreases times.len(),
    {
        if times.len() == 0 {
            0
        } else {
            let rest = self.queried(status, times[0]).readings(status, times.drop_first());
            if self.due(times[0]) {
                1 + rest
            } else {
                rest
            }
        }
    }
}

/// A status that was read is served for `max_cache_age` seconds and no
/// longer: a query less than that time after the reading does not ask for
/// the file, so that of two such queries neither has it read again, and every
/// query from that time on asks for it.
pub proof fn lemma_status_is_served_until_it_is_old(
    cache: CacheView,
    status: NagiosStatusView,
    loaded_at: int,
    now: int,
)
    ensures
        now - loaded_at < cache.max_cache_age ==> !cache.loaded(status, loaded_at).due(now),
        now - loaded_at >= cache.max_cache_age ==> cache.loaded(status, loaded_at).due(now),
{
}

/// Two queries less than `max_cache_age` seconds apart read the file once at
/// most, and once where the first of them reads it; two queries that time
/// apart or more, the first of which reads the file, read it twice.
pub proof fn lemma_two_queries_read_once_or_twice(
    cache: CacheView,
    status: NagiosStatusView,
    first: int,
    second: int,
)
    ensures
        second - first < cache.max_cache_age ==> cache.readings(status, seq![first, second]) <= 1,
        cache.due(first) && second - first < cache.max_cache_age ==> cache.readings(
            status,
            seq![first, second],
        ) == 1,
        cache.due(first) && second - first >= cache.max_cache_age ==> cache.readings(
            status,
            seq![first, second],
        ) == 2,
{
    let times = seq![first, second];
    let after = cache.queried(status, first);
    assert(times.drop_first() =~= seq![second]);
    assert(seq![second].drop_first() =~= Seq::<int>::empty());
    assert(after.queried(status, second).readings(status, Seq::<int>::empty()) == 0);
    assert(after.readings(status, seq![second]) == if after.due(second) {
        1nat
    } else {
        0nat
    });
}

/// After commands were written every query asks for the file to be read,
/// however short a time ago it was read.
pub proof fn lemma_written_commands_force_reading(cache: CacheView, now: int)
    ensures
        cache.invalidated().due(now),
{
}

/// `Utc::now` and `DateTime::timestamp` of the crate `chrono`: the time that
/// the system clock gives, in whole seconds since 1970-01-01 00:00:00 UTC.
/// Nothing is claimed of the number. `Utc::now` panics where the clock reads
/// a time before 1970.
#[verifier::external_body]
fn utc_now() -> i64 {
    chrono::Utc::now().timestamp()
}

impl<P> View for Nagrs<P> {
    type V = CacheView;

    closed spec fn view(&self) -> CacheView {
        CacheView {
            max_cache_age: self.max_cache_age as int,
            status: match self.status {
                Some(status) => Some(status@),
                None => None,
            },
            last_loaded: self.last_loaded as int,
        }
    }
}

impl<P> Nagrs<P> {
    /// A `Nagrs` for the two files, without a status, that serves no status
    /// a second time.
    pub fn new(command_file_path: P, status_file_path: P) -> (r: Nagrs<P>)
        ensures
            r@ == (CacheView { max_cache_age: 0, status: None, last_loaded: 0 }),
            *r.command_file_path() == command_file_path,
            *r.status_file_path() == status_file_path,
    {
        Nagrs {
            command_file_path,
            status_file_path,
            max_cache_age: 0,
            status: None,
            last_loaded: 0,
        }
    }

    /// The same with `seconds` as the time for which a status is served.
    pub fn with_max_cache_age(self, seconds: u64) -> (r: Nagrs<P>)
        ensures
            r@ == (CacheView { max_cache_age: seconds as int, ..self@ }),
            *r.command_file_path() == *self.command_file_path(),
            *r.status_file_path() == *self.status_file_path(),
    {
        Nagrs {
            command_file_path: self.command_file_path,
            status_file_path: self.status_file_path,
            max_cache_age: seconds,
            status: self.status,
            last_loaded: self.last_loaded,
        }
    }

    /// The path of the command file.
    #[verifier::when_used_as_spec(spec_command_file_path)]
    pub fn command_file_path(&self) -> (r: &P)
        ensures
            r == self.spec_command_file_path(),
    {
        &self.command_file_path
    }

    /// The path of the status file.
    #[verifier::when_used_as_spec(spec_status_file_path)]
    pub fn status_file_path(&self) -> (r: &P)
        ensures
            r == self.spec_status_file_path(),
    {
        &self.status_file_path
    }

    /// The path of the command file.
    pub closed spec fn spec_command_file_path(&self) -> &P {
        &self.command_file_path
    }

    /// The path of the status file.
    pub closed spec fn spec_status_file_path(&self) -> &P {
        &self.status_file_path
    }

    /// The status that `text`, the content of the status file, holds.
    /// Nothing is kept.
    pub fn parse(&self, text: &str) -> (r: Result<NagiosStatus, StatusError>)
        ensures
            parsed(text@, r),
    {
        NagiosStatus::parse(text)
    }

    /// Whether the status file has to be read before a query at `now`, a
    /// time in seconds, can be answered.
    pub fn needs_reload(&self, now: i64) -> (r: bool)
        ensures
            r == self@.due(now as int),
    {
        match &self.status {
            None => true,
            Some(_) => now as i128 - self.last_loaded as i128 >= self.max_cache_age as i128,
        }
    }

    /// Takes `text`, the content of the status file read at `now`. Where it
    /// holds a status, that status is kept from now on; where it does not,
    /// what was kept stays.
    pub fn reload(&mut self, text: &str, now: i64) -> (r: Result<(), StatusError>)
        ensures
            match r {
                Ok(_) => status_of(text@) is Ok && final(self)@ == old(self)@.loaded(
                    status_of(text@)->Ok_0,
                    now as int,
                ),
                Err(error) => status_of(text@) == Err::<NagiosStatusView, StatusErrorView>(
                    error@,
                ) && final(self)@ == old(self)@,
            },
            final(self).command_file_path() == old(self).command_file_path(),
            final(self).status_file_path() == old(self).status_file_path(),
    {
        match NagiosStatus::parse(text) {
            Ok(status) => {
                self.status = Some(status);
                self.last_loaded = now;
                Ok(())
            },
            Err(error) => Err(error),
        }
    }

    /// The status that is kept.
    pub fn status(&self) -> (r: Option<&NagiosStatus>)
        ensures
            match r {
                Some(status) => self@.status == Some(status@),
                None => self@.status is None,
            },
    {
        self.status.as_ref()
    }

    /// The lines that submit `cmds` at `timestamp`, a time in seconds, to be
    /// put at the end of the command file.
    pub fn write_cmds_at<C: NagiosCmd>(&self, cmds: &Vec<C>, timestamp: i64) -> (r: String)
        ensures
            r@ == cmd_lines(timestamp as int, cmd_strings(cmds@)),
    {
        let mut out = String::new();
        write_cmds(cmds, timestamp, &mut out);
        out
    }

    /// The lines that submit `cmds` now, to be put at the end of the command
    /// file: all of them bear the one time that the system clock gives for
    /// this call.
    pub fn write_cmds<C: NagiosCmd>(&self, cmds: &Vec<C>) -> (r: String)
        ensures
            exists|timestamp: i64| r@ == #[trigger] cmd_lines(timestamp as int, cmd_strings(cmds@)),
    {
        self.write_cmds_at(cmds, utc_now())
    }

    /// Says that commands were written to the command file: the status that
    /// is kept is dropped, for the daemon may have changed what it holds.
    pub fn invalidate(&mut self)
        ensures
            final(self)@ == old(self)@.invalidated(),
            final(self).command_file_path() == old(self).command_file_path(),
            final(self).status_file_path() == old(self).status_file_path(),
    {
        self.status = None;
    }
}

} // verus!
