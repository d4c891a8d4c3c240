//! The status file as a whole: what the daemon says of itself, and the hosts,
//! services and contacts that it watches.

pub mod block;
pub mod cmd;
pub mod fields;
pub mod host;
pub mod object;
pub mod record;
pub mod service;

use vstd::prelude::*;
use regex::Regex;
use crate::assoc::{
    assoc, lemma_assoc_absent, lemma_assoc_entry, lemma_assoc_push, lemma_assoc_update,
};
use crate::nagios::block::{
    blocks_view, read, Block, BlockType, BlockView, ParseError, ParseErrorView,
};
use crate::nagios::fields::KeyValues;
use crate::nagios::host::{host_record, Host, HostView};
use crate::nagios::object::{ConvertError, ConvertErrorView, Fields};
use crate::nagios::service::{service_record, Service, ServiceView};
use crate::text::same_text;

verus! {

/// `Regex` of the crate `regex`: a regular expression ready for matching.
/// Nothing is known of what a value holds.
#[verifier::external_type_specification]
#[verifier::external_body]
pub struct ExRegex(Regex);

/// The texts in which a regular expression finds a match somewhere.
pub uninterp spec fn matched_texts(re: Regex) -> Set<Seq<char>>;

/// `Regex::is_match` of the crate `regex`: whether `re` finds a match
/// anywhere in `text`. The answer depends on `re` and `text` alone, so the
/// texts that `re` matches are a set, which `matched_texts` names.
#[verifier::external_body]
fn regex_is_match(re: &Regex, text: &str) -> (r: bool)
    ensures
        r == matched_texts(*re).contains(text@),
{
    re.is_match(text)
}

/// The services of one host, in the order in which the file gives them.
#[derive(Debug)]
struct ServiceGroup {
    host_name: String,
    services: Vec<Service>,
}

/// What one status file holds.
#[derive(Debug)]
pub struct NagiosStatus {
    info: KeyValues,
    program: KeyValues,
    hosts: Vec<Host>,
    services: Vec<ServiceGroup>,
    contacts: Vec<KeyValues>,
}

/// A `NagiosStatus` as mathematical maps and sequences.
pub struct NagiosStatusView {
    /// The fields of the last `info` block.
    pub info: Fields,
    /// The fields of the last `programstatus` block.
    pub program: Fields,
    /// The names of the hosts, in the order in which each first came.
    pub host_names: Seq<Seq<char>>,
    /// Each host by its name.
    pub hosts: Map<Seq<char>, HostView>,
    /// The services of each host that has any, in the order of the file.
    pub services: Map<Seq<char>, Seq<ServiceView>>,
    /// The fields of each `contactstatus` block, in the order of the file.
    pub contacts: Seq<Fields>,
}

/// Why a text is not a status file.
#[derive(Debug, PartialEq)]
pub enum StatusError {
    /// The text is not a sequence of blocks.
    Parse(ParseError),
    /// A block is not the record that its kind asks for.
    Convert(ConvertError),
}

/// A `StatusError` with each text as its characters.
pub enum StatusErrorView {
    Parse(ParseErrorView),
    Convert(ConvertErrorView),
}

impl View for StatusError {
    type V = StatusErrorView;

    open spec fn view(&self) -> StatusErrorView {
        match self {
            StatusError::Parse(error) => StatusErrorView::Parse(error@),
            StatusError::Convert(error) => StatusErrorView::Convert(error@),
        }
    }
}

/// The status of a file without blocks.
pub open spec fn empty_status() -> NagiosStatusView {
    NagiosStatusView {
        info: Map::empty(),
        program: Map::empty(),
        host_names: Seq::empty(),
        hosts: Map::empty(),
        services: Map::empty(),
        contacts: Seq::empty(),
    }
}

/// The services that `services` lists for `host_name`: none for a host that
/// it does not know.
pub open spec fn listed(services: Map<Seq<char>, Seq<ServiceView>>, host_name: Seq<char>) -> Seq<
    ServiceView,
> {
    if services.contains_key(host_name) {
        services[host_name]
    } else {
        Seq::empty()
    }
}

/// The status after one more block. An `info` or `programstatus` block takes
/// the place of the one before it; a host takes the place of the host of the
/// same name, or comes last; a service comes last among the services of its
/// host; a contact comes last. A block of unknown kind changes nothing.
pub open spec fn absorb(status: NagiosStatusView, block: BlockView) -> Result<
    NagiosStatusView,
    ConvertErrorView,
> {
    match block.block_type {
        BlockType::Info => Ok(NagiosStatusView { info: block.key_values, ..status }),
        BlockType::Program => Ok(NagiosStatusView { program: block.key_values, ..status }),
        BlockType::Host => match host_record(block.key_values) {
            Err(error) => Err(error),
            Ok(host) => Ok(
                NagiosStatusView {
                    host_names: if status.hosts.contains_key(host.host_name) {
                        status.host_names
                    } else {
                        status.host_names.push(host.host_name)
                    },
                    hosts: status.hosts.insert(host.host_name, host),
                    ..status
                },
            ),
        },
        BlockType::Service => match service_record(block.key_values) {
            Err(error) => Err(error),
            Ok(service) => Ok(
                NagiosStatusView {
                    services: status.services.insert(
                        service.host_name,
                        listed(status.services, service.host_name).push(service),
                    ),
                    ..status
                },
            ),
        },
        BlockType::Contact => Ok(
            NagiosStatusView { contacts: status.contacts.push(block.key_values), ..status },
        ),
        BlockType::Unknown => Ok(status),
    }
}

/// The status after `blocks`, one after the other, or the error of the first
/// block that is not the record that its kind asks for.
pub open spec fn absorb_all(status: NagiosStatusView, blocks: Seq<BlockView>) -> Result<
    NagiosStatusView,
    ConvertErrorView,
>
    decreases blocks.len(),
{
    if blocks.len() == 0 {
        Ok(status)
    } else {
        match absorb(status, blocks[0]) {
            Err(error) => Err(error),
            Ok(next) => absorb_all(next, blocks.drop_first()),
        }
    }
}

/// The status that `blocks` make.
pub open spec fn status_of_blocks(blocks: Seq<BlockView>) -> Result<
    NagiosStatusView,
    ConvertErrorView,
> {
    absorb_all(empty_status(), blocks)
}

/// The status that `text` holds, or the reason why it holds none: the error
/// that stops the reading of blocks, else that of the first block that is
/// not the record that its kind asks for.
pub open spec fn status_of(text: Seq<char>) -> Result<NagiosStatusView, StatusErrorView> {
    match read(text).error {
        Some(error) => Err(StatusErrorView::Parse(error)),
        None => match status_of_blocks(read(text).blocks) {
            Err(error) => Err(StatusErrorView::Convert(error)),
            Ok(status) => Ok(status),
        },
    }
}

/// What holds of every status that blocks make. The names of the hosts are
/// the keys of the hosts, each once. Every host stands under its own name.
/// The services under a name are at least one, and each is a service of the
/// host of that name.
pub open spec fn consistent(status: NagiosStatusView) -> bool {
    &&& status.host_names.no_duplicates()
    &&& forall|name: Seq<char>|
        status.hosts.contains_key(name) <==> #[trigger] status.host_names.contains(name)
    &&& forall|name: Seq<char>| #[trigger]
        status.hosts.contains_key(name) ==> status.hosts[name].host_name == name
    &&& forall|name: Seq<char>| #[trigger]
        status.services.contains_key(name) ==> status.services[name].len() > 0
    &&& forall|name: Seq<char>, i: int|
        status.services.contains_key(name) && 0 <= i < status.services[name].len() ==> (
        #[trigger] status.services[name][i]).host_name == name
}

/// One more block leaves a status as consistent as it was.
pub proof fn lemma_absorb_keeps_consistency(status: NagiosStatusView, block: BlockView)
    requires
        consistent(status),
        absorb(status, block) is Ok,
    ensures
        consistent(absorb(status, block)->Ok_0),
{
    let after = absorb(status, block)->Ok_0;
    match block.block_type {
        BlockType::Host => {
            let host = host_record(block.key_values)->Ok_0;
            let name = host.host_name;
            if status.hosts.contains_key(name) {
            } else {
                let names = status.host_names;
                let longer = names.push(name);
                assert forall|i: int, j: int|
                    0 <= i < longer.len() && 0 <= j < longer.len() && i != j implies longer[i]
                    != longer[j] by {
                    if i < names.len() {
                        assert(names.contains(names[i]));
                    }
                    if j < names.len() {
                        assert(names.contains(names[j]));
                    }
                }
            }
            assert forall|other: Seq<char>|
                after.hosts.contains_key(other) <==> #[trigger] after.host_names.contains(
                    other,
                ) by {
                if after.host_names.contains(other) {
                    let i = choose|i: int|
                        0 <= i < after.host_names.len() && after.host_names[i] == other;
                    if i < status.host_names.len() {
                        assert(status.host_names[i] == other);
                        assert(status.host_names.contains(other));
                    }
                }
                if after.hosts.contains_key(other) {
                    if other == name {
                        if status.hosts.contains_key(name) {
                            assert(status.host_names.contains(name));
                        } else {
                            assert(after.host_names[status.host_names.len() as int] == name);
                        }
                    } else {
                        assert(status.host_names.contains(other));
                        let i = choose|i: int|
                            0 <= i < status.host_names.len() && status.host_names[i] == other;
                        assert(after.host_names[i] == other);
                    }
                }
            }
        },
        BlockType::Service => {
            let service = service_record(block.key_values)->Ok_0;
            let name = service.host_name;
            assert forall|other: Seq<char>, i: int|
                after.services.contains_key(other) && 0 <= i < after.services[other].len() implies (
            #[trigger] after.services[other][i]).host_name == other by {
                if other == name {
                    let before = listed(status.services, name);
                    if i < before.len() {
                        assert(after.services[other][i] == status.services[name][i]);
                    }
                } else {
                    assert(after.services[other][i] == status.services[other][i]);
                }
            }
        },
        _ => {},
    }
}

/// Every status that blocks make after a consistent one is consistent.
pub proof fn lemma_absorb_all_keeps_consistency(status: NagiosStatusView, blocks: Seq<BlockView>)
    requires
        consistent(status),
        absorb_all(status, blocks) is Ok,
    ensures
        consistent(absorb_all(status, blocks)->Ok_0),
    decreases blocks.len(),
{
    if blocks.len() > 0 {
        lemma_absorb_keeps_consistency(status, blocks[0]);
        lemma_absorb_all_keeps_consistency(absorb(status, blocks[0])->Ok_0, blocks.drop_first());
    }
}

/// Every status that a text holds is consistent.
pub proof fn lemma_status_is_consistent(text: Seq<char>)
    requires
        status_of(text) is Ok,
    ensures
        consistent(status_of(text)->Ok_0),
{
    lemma_absorb_all_keeps_consistency(empty_status(), read(text).blocks);
}

/// What `NagiosStatus::parse` owes for `text`: `result` is the status that
/// `text` holds, or the reason why it holds none.
pub open spec fn parsed(text: Seq<char>, result: Result<NagiosStatus, StatusError>) -> bool {
    match result {
        Ok(status) => status_of(text) == Ok::<NagiosStatusView, StatusErrorView>(status@),
        Err(error) => status_of(text) == Err::<NagiosStatusView, StatusErrorView>(error@),
    }
}

/// The view of what `NagiosStatus::parse` gives.
pub open spec fn outcome(result: Result<NagiosStatus, StatusError>) -> Result<
    NagiosStatusView,
    StatusErrorView,
> {
    match result {
        Ok(status) => Ok(status@),
        Err(error) => Err(error@),
    }
}

/// Parsing one text twice gives the same: whatever `NagiosStatus::parse`
/// gives for a text the first time and the second, the two statuses have one
/// view, or the two errors have.
pub proof fn lemma_parsing_twice_gives_the_same(
    text: Seq<char>,
    first: Result<NagiosStatus, StatusError>,
    second: Result<NagiosStatus, StatusError>,
)
    requires
        parsed(text, first),
        parsed(text, second),
    ensures
        outcome(first) == outcome(second),
{
}

/// The test that a name is one of `texts`.
pub open spec fn is_in(texts: Set<Seq<char>>) -> spec_fn(Seq<char>) -> bool {
    |name: Seq<char>| texts.contains(name)
}

/// The host of `status` that a name stands for.
pub open spec fn host_named(status: NagiosStatusView) -> spec_fn(Seq<char>) -> HostView {
    |name: Seq<char>| status.hosts[name]
}

/// The items whose place in `keep` holds true, in order. A place that `keep`
/// does not have counts as false.
pub open spec fn kept<A>(items: Seq<A>, keep: Seq<bool>) -> Seq<A>
    decreases items.len(),
{
    if items.len() == 0 {
        Seq::empty()
    } else {
        let last = items.len() - 1;
        let before = kept(items.drop_last(), keep);
        if last < keep.len() && keep[last] {
            before.push(items[last])
        } else {
            before
        }
    }
}

/// The hosts of `status` whose place in `keep` holds true, in the order in
/// which the hosts first came.
pub open spec fn hosts_where(status: NagiosStatusView, keep: Seq<bool>) -> Seq<HostView> {
    kept(status.host_names, keep).map_values(host_named(status))
}

/// The hosts of `status` whose names are among `texts`, in the order in
/// which the hosts first came.
pub open spec fn hosts_among(status: NagiosStatusView, texts: Set<Seq<char>>) -> Seq<HostView> {
    status.host_names.filter(is_in(texts)).map_values(host_named(status))
}

/// Keeping by places is keeping by a test, where each place holds what the
/// test says of the item at that place.
pub proof fn lemma_kept_is_filter<A>(items: Seq<A>, keep: Seq<bool>, test: spec_fn(A) -> bool)
    requires
        keep.len() == items.len(),
        forall|i: int| 0 <= i < items.len() ==> keep[i] == test(#[trigger] items[i]),
    ensures
        kept(items, keep) == items.filter(test),
    decreases items.len(),
{
    reveal(Seq::filter);
    if items.len() > 0 {
        let fewer = items.drop_last();
        let flags = keep.drop_last();
        assert forall|i: int| 0 <= i < fewer.len() implies flags[i] == test(
            #[trigger] fewer[i],
        ) by {
            assert(fewer[i] == items[i]);
        }
        lemma_kept_is_filter(fewer, flags, test);
        lemma_kept_ignores_further_places(fewer, flags, keep);
    }
}

/// Places beyond the items do not count.
pub proof fn lemma_kept_ignores_further_places<A>(items: Seq<A>, short: Seq<bool>, long: Seq<bool>)
    requires
        items.len() <= short.len() <= long.len(),
        forall|i: int| 0 <= i < items.len() ==> short[i] == long[i],
    ensures
        kept(items, short) == kept(items, long),
    decreases items.len(),
{
    if items.len() > 0 {
        lemma_kept_ignores_further_places(items.drop_last(), short, long);
    }
}

/// The views of `names`, in order.
pub open spec fn names_view(names: Seq<String>) -> Seq<Seq<char>> {
    Seq::new(names.len(), |i: int| names[i]@)
}

/// The views of `hosts`, in order.
pub open spec fn host_views(hosts: Seq<Host>) -> Seq<HostView> {
    Seq::new(hosts.len(), |i: int| hosts[i]@)
}

/// The views of `services`, in order.
pub open spec fn service_views(services: Seq<Service>) -> Seq<ServiceView> {
    Seq::new(services.len(), |i: int| services[i]@)
}

spec fn host_names(hosts: Seq<Host>) -> Seq<Seq<char>> {
    Seq::new(hosts.len(), |i: int| hosts[i].host_name@)
}

spec fn group_names(groups: Seq<ServiceGroup>) -> Seq<Seq<char>> {
    Seq::new(groups.len(), |i: int| groups[i].host_name@)
}

spec fn group_views(groups: Seq<ServiceGroup>) -> Seq<Seq<ServiceView>> {
    Seq::new(groups.len(), |i: int| service_views(groups[i].services@))
}

spec fn contact_views(contacts: Seq<KeyValues>) -> Seq<Fields> {
    Seq::new(contacts.len(), |i: int| contacts[i]@)
}

spec fn status_view(
    info: Fields,
    program: Fields,
    hosts: Seq<Host>,
    groups: Seq<ServiceGroup>,
    contacts: Seq<KeyValues>,
) -> NagiosStatusView {
    NagiosStatusView {
        info,
        program,
        host_names: host_names(hosts),
        hosts: assoc(host_names(hosts), host_views(hosts)),
        services: assoc(group_names(groups), group_views(groups)),
        contacts: contact_views(contacts),
    }
}

/// Following one block and then the rest is following them all.
proof fn lemma_absorb_step(status: NagiosStatusView, blocks: Seq<BlockView>, at: int)
    requires
        0 <= at < blocks.len(),
    ensures
        absorb_all(status, blocks.skip(at)) == match absorb(status, blocks[at]) {
            Err(error) => Err(error),
            Ok(next) => absorb_all(next, blocks.skip(at + 1)),
        },
{
    assert(blocks.skip(at)[0] == blocks[at]);
    assert(blocks.skip(at).drop_first() =~= blocks.skip(at + 1));
}

/// The place of the host named `name`.
fn host_position(hosts: &Vec<Host>, name: &str) -> (r: Option<usize>)
    ensures
        match r {
            Some(i) => i < hosts.len() && hosts[i as int].host_name@ == name@,
            None => forall|i: int|
                0 <= i < hosts.len() ==> #[trigger] host_names(hosts@)[i] != name@,
        },
{
    let mut i: usize = 0;
    while i < hosts.len()
        invariant
            i <= hosts.len(),
            forall|j: int| 0 <= j < i ==> #[trigger] host_names(hosts@)[j] != name@,
        decreases hosts.len() - i,
    {
        if same_text(hosts[i].host_name.as_str(), name) {
            return Some(i);
        }
        i += 1;
    }
    None
}

/// The place of the services of the host named `name`. The search goes from
/// the last place back, for the services of one host mostly stand together.
fn group_position(groups: &Vec<ServiceGroup>, name: &str) -> (r: Option<usize>)
    ensures
        match r {
            Some(i) => i < groups.len() && groups[i as int].host_name@ == name@,
            None => forall|i: int|
                0 <= i < groups.len() ==> #[trigger] group_names(groups@)[i] != name@,
        },
{
    let mut i: usize = groups.len();
    while i > 0
        invariant
            i <= groups.len(),
            forall|j: int| i <= j < groups.len() ==> #[trigger] group_names(groups@)[j] != name@,
        decreases i,
    {
        i -= 1;
        if same_text(groups[i].host_name.as_str(), name) {
            return Some(i);
        }
    }
    None
}

/// Puts `host` in the place of the host of the same name, or last.
fn put_host(hosts: &mut Vec<Host>, host: Host)
    requires
        host_names(old(hosts)@).no_duplicates(),
    ensures
        host_names(final(hosts)@).no_duplicates(),
        host_names(final(hosts)@) == if assoc(
            host_names(old(hosts)@),
            host_views(old(hosts)@),
        ).contains_key(host.host_name@) {
            host_names(old(hosts)@)
        } else {
            host_names(old(hosts)@).push(host.host_name@)
        },
        assoc(host_names(final(hosts)@), host_views(final(hosts)@)) == assoc(
            host_names(old(hosts)@),
            host_views(old(hosts)@),
        ).insert(host.host_name@, host@),
{
    let ghost names = host_names(hosts@);
    let ghost views = host_views(hosts@);
    match host_position(hosts, host.host_name.as_str()) {
        Some(i) => {
            hosts.set(i, host);
            proof {
                lemma_assoc_entry(names, views, i as int);
                lemma_assoc_update(names, views, i as int, host@);
                assert(host_names(hosts@) =~= names);
                assert(host_views(hosts@) =~= views.update(i as int, host@));
            }
        },
        None => {
            hosts.push(host);
            proof {
                lemma_assoc_absent(names, views, host.host_name@);
                lemma_assoc_push(names, views, host.host_name@, host@);
                assert(host_names(hosts@) =~= names.push(host.host_name@));
                assert(host_views(hosts@) =~= views.push(host@));
            }
        },
    }
}

/// Puts `service` last among the services of its host.
fn add_service(groups: &mut Vec<ServiceGroup>, service: Service)
    requires
        group_names(old(groups)@).no_duplicates(),
    ensures
        group_names(final(groups)@).no_duplicates(),
        assoc(group_names(final(groups)@), group_views(final(groups)@)) == ({
            let before = assoc(group_names(old(groups)@), group_views(old(groups)@));
            before.insert(service.host_name@, listed(before, service.host_name@).push(service@))
        }),
{
    let ghost names = group_names(groups@);
    let ghost views = group_views(groups@);
    match group_position(groups, service.host_name.as_str()) {
        Some(i) => {
            let ghost list = groups[i as int].services@;
            groups[i].services.push(service);
            proof {
                lemma_assoc_entry(names, views, i as int);
                let longer = service_views(list).push(service@);
                assert(service_views(list.push(service)) =~= longer);
                lemma_assoc_update(names, views, i as int, longer);
                assert(group_names(groups@) =~= names);
                assert(group_views(groups@) =~= views.update(i as int, longer));
            }
        },
        None => {
            let host_name = service.host_name.clone();
            let mut services: Vec<Service> = Vec::new();
            services.push(service);
            groups.push(ServiceGroup { host_name, services });
            proof {
                let single = Seq::<ServiceView>::empty().push(service@);
                assert(service_views(services@) =~= single);
                lemma_assoc_absent(names, views, service.host_name@);
                lemma_assoc_push(names, views, service.host_name@, single);
                assert(group_names(groups@) =~= names.push(service.host_name@));
                assert(group_views(groups@) =~= views.push(single));
            }
        },
    }
}

impl View for NagiosStatus {
    type V = NagiosStatusView;

    closed spec fn view(&self) -> NagiosStatusView {
        status_view(self.info@, self.program@, self.hosts@, self.services@, self.contacts@)
    }
}

impl NagiosStatus {
    /// No two hosts have one name, and the services of a host stand together.
    #[verifier::type_invariant]
    spec fn names_differ(self) -> bool {
        &&& host_names(self.hosts@).no_duplicates()
        &&& group_names(self.services@).no_duplicates()
    }

    /// The status that `text` holds.
    pub fn parse(text: &str) -> (r: Result<NagiosStatus, StatusError>)
        ensures
            parsed(text@, r),
    {
        match Block::parse(text) {
            Err(error) => Err(StatusError::Parse(error)),
            Ok(blocks) => {
                match NagiosStatus::from_blocks(blocks) {
                    Err(error) => Err(StatusError::Convert(error)),
                    Ok(status) => Ok(status),
                }
            },
        }
    }

    /// The status that `blocks` make.
    pub fn from_blocks(blocks: Vec<Block>) -> (r: Result<NagiosStatus, ConvertError>)
        ensures
            match r {
                Ok(status) => status_of_blocks(blocks_view(blocks@)) == Ok::<
                    NagiosStatusView,
                    ConvertErrorView,
                >(status@),
                Err(error) => status_of_blocks(blocks_view(blocks@)) == Err::<
                    NagiosStatusView,
                    ConvertErrorView,
                >(error@),
            },
    {
        let ghost all = blocks@;
        let ghost views = blocks_view(all);
        let mut info = KeyValues::new();
        let mut program = KeyValues::new();
        let mut hosts: Vec<Host> = Vec::new();
        let mut services: Vec<ServiceGroup> = Vec::new();
        let mut contacts: Vec<KeyValues> = Vec::new();
        proof {
            assert(views.skip(0) =~= views);
            assert(status_view(info@, program@, hosts@, services@, contacts@).host_names
                =~= empty_status().host_names);
            assert(status_view(info@, program@, hosts@, services@, contacts@).hosts
                =~= empty_status().hosts);
            assert(status_view(info@, program@, hosts@, services@, contacts@).services
                =~= empty_status().services);
            assert(status_view(info@, program@, hosts@, services@, contacts@).contacts
                =~= empty_status().contacts);
        }
        for block in it: blocks.into_iter()
            invariant
                it.seq() == all,
                views == blocks_view(all),
                host_names(hosts@).no_duplicates(),
                group_names(services@).no_duplicates(),
                status_of_blocks(views) == absorb_all(
                    status_view(info@, program@, hosts@, services@, contacts@),
                    views.skip(it.index() as int),
                ),
        {
            let ghost at = it.index() as int;
            let ghost before = status_view(info@, program@, hosts@, services@, contacts@);
            proof {
                lemma_absorb_step(before, views, at);
                assert(views[at] == block@);
            }
            match block.block_type {
                BlockType::Info => {
                    info = block.key_values;
                },
                BlockType::Program => {
                    program = block.key_values;
                },
                BlockType::Host => {
                    match Host::try_from(block.key_values) {
                        Ok(host) => {
                            put_host(&mut hosts, host);
                        },
                        Err(error) => {
                            return Err(error);
                        },
                    }
                },
                BlockType::Service => {
                    match Service::try_from(block.key_values) {
                        Ok(service) => {
                            add_service(&mut services, service);
                        },
                        Err(error) => {
                            return Err(error);
                        },
                    }
                },
                BlockType::Contact => {
                    let ghost old_contacts = contact_views(contacts@);
                    contacts.push(block.key_values);
                    assert(contact_views(contacts@) =~= old_contacts.push(block.key_values@));
                },
                BlockType::Unknown => {},
            }
        }
        assert(views.skip(views.len() as int) =~= Seq::empty());
        Ok(NagiosStatus { info, program, hosts, services, contacts })
    }

    /// The fields of the `info` block.
    pub fn get_info(&self) -> (r: &KeyValues)
        ensures
            r@ == self@.info,
    {
        &self.info
    }

    /// The fields of the `programstatus` block.
    pub fn get_program(&self) -> (r: &KeyValues)
        ensures
            r@ == self@.program,
    {
        &self.program
    }

    /// The fields of each contact, in the order of the file.
    pub fn get_contacts(&self) -> (r: &Vec<KeyValues>)
        ensures
            r.len() == self@.contacts.len(),
            forall|i: int| 0 <= i < r.len() ==> (#[trigger] r[i])@ == self@.contacts[i],
    {
        &self.contacts
    }

    /// The host named `host_name`, where there is one.
    pub fn get_host(&self, host_name: &str) -> (r: Option<Host>)
        ensures
            match r {
                Some(host) => self@.hosts.contains_key(host_name@) && host@
                    == self@.hosts[host_name@],
                None => !self@.hosts.contains_key(host_name@),
            },
    {
        proof {
            use_type_invariant(self);
        }
        let ghost names = host_names(self.hosts@);
        let ghost views = host_views(self.hosts@);
        match host_position(&self.hosts, host_name) {
            Some(i) => {
                proof {
                    lemma_assoc_entry(names, views, i as int);
                }
                Some(self.hosts[i].clone())
            },
            None => {
                proof {
                    lemma_assoc_absent(names, views, host_name@);
                }
                None
            },
        }
    }

    /// The services of the host named `host_name`, in the order of the file:
    /// none for a host without services, and none for a name that no host
    /// has.
    pub fn get_host_services(&self, host_name: &str) -> (r: Vec<Service>)
        ensures
            service_views(r@) == listed(self@.services, host_name@),
            r.len() == listed(self@.services, host_name@).len(),
    {
        proof {
            use_type_invariant(self);
        }
        let ghost names = group_names(self.services@);
        let ghost views = group_views(self.services@);
        let mut out: Vec<Service> = Vec::new();
        match group_position(&self.services, host_name) {
            Some(i) => {
                proof {
                    lemma_assoc_entry(names, views, i as int);
                }
                let list = &self.services[i].services;
                let mut k: usize = 0;
                while k < list.len()
                    invariant
                        k <= list.len(),
                        out.len() == k,
                        forall|j: int| 0 <= j < k ==> (#[trigger] out[j])@ == list[j]@,
                    decreases list.len() - k,
                {
                    out.push(list[k].clone());
                    k += 1;
                }
                assert(service_views(out@) =~= service_views(list@));
            },
            None => {
                proof {
                    lemma_assoc_absent(names, views, host_name@);
                    assert(service_views(out@) =~= Seq::empty());
                }
            },
        }
        out
    }

    /// The names of the hosts, in the order in which the hosts first came.
    pub fn host_names(&self) -> (r: Vec<String>)
        ensures
            names_view(r@) == self@.host_names,
            r.len() == self@.host_names.len(),
    {
        let mut out: Vec<String> = Vec::new();
        let mut i: usize = 0;
        while i < self.hosts.len()
            invariant
                i <= self.hosts.len(),
                out.len() == i,
                forall|j: int| 0 <= j < i ==> (#[trigger] out[j])@ == self.hosts[j].host_name@,
            decreases self.hosts.len() - i,
        {
            out.push(self.hosts[i].host_name.clone());
            i += 1;
        }
        assert(names_view(out@) =~= host_names(self.hosts@));
        out
    }

    /// The hosts whose place in `keep` holds true, in the order in which the
    /// hosts first came. A host for which `keep` has no place is left out.
    pub fn get_hosts_where(&self, keep: &Vec<bool>) -> (r: Vec<Host>)
        ensures
            host_views(r@) == hosts_where(self@, keep@),
            r.len() == hosts_where(self@, keep@).len(),
    {
        proof {
            use_type_invariant(self);
        }
        let ghost names = host_names(self.hosts@);
        let ghost views = host_views(self.hosts@);
        let ghost pick = host_named(self@);
        let mut out: Vec<Host> = Vec::new();
        let mut i: usize = 0;
        proof {
            assert(names.take(0) =~= Seq::empty());
            assert(host_views(out@) =~= kept(names.take(0), keep@).map_values(pick));
        }
        while i < self.hosts.len()
            invariant
                i <= self.hosts.len(),
                names == host_names(self.hosts@),
                views == host_views(self.hosts@),
                names.no_duplicates(),
                pick == host_named(self@),
                host_views(out@) == kept(names.take(i as int), keep@).map_values(pick),
            decreases self.hosts.len() - i,
        {
            let ghost before = host_views(out@);
            let ghost seen = names.take(i as int);
            proof {
                lemma_assoc_entry(names, views, i as int);
                assert(names.take(i + 1).drop_last() =~= seen);
                assert(names.take(i + 1)[i as int] == names[i as int]);
            }
            if i < keep.len() && keep[i] {
                out.push(self.hosts[i].clone());
                proof {
                    assert(host_views(out@) =~= before.push(views[i as int]));
                    assert(kept(seen, keep@).push(names[i as int]).map_values(pick) =~= kept(
                        seen,
                        keep@,
                    ).map_values(pick).push(views[i as int]));
                }
            }
            i += 1;
        }
        assert(names.take(i as int) =~= names);
        out
    }

    /// The hosts in whose names `re` finds a match, in the order in which the
    /// hosts first came.
    pub fn get_hosts_regex(&self, re: &Regex) -> (r: Vec<Host>)
        ensures
            host_views(r@) == hosts_among(self@, matched_texts(*re)),
            r.len() == hosts_among(self@, matched_texts(*re)).len(),
    {
        let ghost names = host_names(self.hosts@);
        let mut keep: Vec<bool> = Vec::new();
        let mut i: usize = 0;
        while i < self.hosts.len()
            invariant
                i <= self.hosts.len(),
                names == host_names(self.hosts@),
                keep.len() == i,
                forall|j: int|
                    0 <= j < i ==> keep[j] == matched_texts(*re).contains(#[trigger] names[j]),
            decreases self.hosts.len() - i,
        {
            keep.push(regex_is_match(re, self.hosts[i].host_name.as_str()));
            i += 1;
        }
        proof {
            lemma_kept_is_filter(names, keep@, is_in(matched_texts(*re)));
        }
        self.get_hosts_where(&keep)
    }
}

} // verus!
