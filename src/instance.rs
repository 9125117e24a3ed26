//! Instances: groups of four containers on one private network, seen through
//! what the engine reports of them.
use vstd::prelude::*;
use crate::container::{role_of_label, ContainerError, InstanceContainer};
use crate::image::ContainerImage;
use crate::kv::{entries_view, first_value, lemma_first_value_unique, lookup_first};
use crate::labels::{container_label_set, lemma_labels_read_back};
use crate::labels::{parse_port, port_of};
use crate::layout::{network_name, network_name_of};
use crate::metadata::InstanceData;
use crate::plan::InstancePlan;
use crate::text::strings_view;
use crate::status::{aggregate, determine_instance_status, status_of, ContainerStatus, InstanceStatus};

verus! {

pub struct Instance {
    pub uuid: String,
    pub status: InstanceStatus,
    pub containers: Vec<InstanceContainer>,
    pub nginx_port: u32,
    pub adminer_port: u32,
    pub wordpress_data: Option<InstanceData>,
}

pub enum InstanceSelection {
    All,
    One(String),
}

/// Why an instance could not be listed or found.
pub enum InstanceError {
    /// The instance's network has no readable metadata record.
    MetadataMissing { network: String },
    NotFound { uuid: String },
}

/// A container as the engine lists it: its identity, state word, the
/// networks it is attached to, and its labels.
pub struct ListedContainer {
    pub id: String,
    pub state: String,
    pub networks: Vec<String>,
    pub labels: Vec<(String, String)>,
}

/// A container as this library shows it: identity, role and state.
pub type ContainerView = (Seq<char>, ContainerImage, ContainerStatus);

pub open spec fn container_view(c: InstanceContainer) -> ContainerView {
    (c.container_id@, c.container_image, c.container_status)
}

pub open spec fn containers_view(cs: Seq<InstanceContainer>) -> Seq<ContainerView> {
    cs.map_values(|c: InstanceContainer| container_view(c))
}

pub open spec fn statuses_of(cs: Seq<ContainerView>) -> Seq<ContainerStatus> {
    cs.map_values(|c: ContainerView| c.2)
}

/// The value of a container's label; where the engine reported a key twice,
/// the first entry counts.
pub open spec fn label_value(c: ListedContainer, key: Seq<char>) -> Option<Seq<char>> {
    first_value(entries_view(c.labels@), key)
}

/// Membership of a container in the instance whose network is `network`: it
/// is attached to that network, and its `instance` label names the instance
/// whose network that is.
pub open spec fn is_member(network: Seq<char>, c: ListedContainer) -> bool {
    &&& exists|i: int| 0 <= i < c.networks@.len() && #[trigger] c.networks@[i]@ == network
    &&& label_value(c, "instance"@) matches Some(l) && network_name_of(l) == network
}

pub open spec fn member_view(c: ListedContainer) -> ContainerView {
    (c.id@, role_of_label(label_value(c, "image"@)), status_of(c.state@))
}

/// The members of the instance on `network` among `cs`, in the order listed.
pub open spec fn members(network: Seq<char>, cs: Seq<ListedContainer>) -> Seq<ContainerView>
    decreases cs.len(),
{
    if cs.len() == 0 {
        Seq::empty()
    } else {
        let rest = members(network, cs.drop_last());
        if is_member(network, cs.last()) {
            rest.push(member_view(cs.last()))
        } else {
            rest
        }
    }
}

fn on_network(networks: &Vec<String>, network: &String) -> (r: bool)
    ensures
        r == exists|i: int| 0 <= i < networks@.len() && #[trigger] networks@[i]@ == network@,
{
    let mut i: usize = 0;
    while i < networks.len()
        invariant
            i <= networks.len(),
            forall|j: int| 0 <= j < i ==> #[trigger] networks@[j]@ != network@,
        decreases networks.len() - i,
    {
        if networks[i] == *network {
            return true;
        }
        i = i + 1;
    }
    false
}

fn member_of(network: &String, c: &ListedContainer) -> (r: bool)
    ensures
        r == is_member(network@, *c),
{
    if !on_network(&c.networks, network) {
        return false;
    }
    match lookup_first(&c.labels, "instance") {
        Some(l) => {
            let n = network_name(l.as_str());
            n == *network
        },
        None => false,
    }
}

fn observe_listed(c: &ListedContainer) -> (r: InstanceContainer)
    ensures
        container_view(r) == member_view(*c),
{
    let image = match lookup_first(&c.labels, "image") {
        Some(s) => ContainerImage::from_str(s.as_str()),
        None => ContainerImage::Unknown,
    };
    InstanceContainer {
        container_id: c.id.clone(),
        container_image: image,
        container_status: crate::status::ContainerStatus::from_str(c.state.as_str()),
    }
}

fn statuses(cs: &Vec<InstanceContainer>) -> (r: Vec<ContainerStatus>)
    ensures
        r@ == statuses_of(containers_view(cs@)),
{
    let mut r: Vec<ContainerStatus> = Vec::new();
    let mut i: usize = 0;
    while i < cs.len()
        invariant
            i <= cs.len(),
            r@ == statuses_of(containers_view(cs@)).take(i as int),
        decreases cs.len() - i,
    {
        r.push(cs[i].container_status);
        i = i + 1;
        assert(r@ =~= statuses_of(containers_view(cs@)).take(i as int));
    }
    assert(statuses_of(containers_view(cs@)).take(i as int) =~= statuses_of(containers_view(cs@)));
    r
}

/// The outcome of one operation on an instance: its state afterwards, the
/// containers observed after the operation, and the containers it failed on.
pub struct InstanceInfo {
    pub uuid: String,
    pub status: InstanceStatus,
    pub containers: Vec<InstanceContainer>,
    pub failures: Vec<ContainerError>,
}

pub open spec fn oks(s: Seq<Result<InstanceContainer, ContainerError>>) -> Seq<InstanceContainer>
    decreases s.len(),
{
    if s.len() == 0 {
        Seq::empty()
    } else {
        match s.last() {
            Ok(c) => oks(s.drop_last()).push(c),
            Err(_) => oks(s.drop_last()),
        }
    }
}

pub open spec fn errs(s: Seq<Result<InstanceContainer, ContainerError>>) -> Seq<ContainerError>
    decreases s.len(),
{
    if s.len() == 0 {
        Seq::empty()
    } else {
        match s.last() {
            Ok(_) => errs(s.drop_last()),
            Err(e) => errs(s.drop_last()).push(e),
        }
    }
}

/// The instance selected for an operation: all known ones, or the one named,
/// which must be known.
pub open spec fn selected(selection: InstanceSelection, known: Seq<Seq<char>>) -> Option<Seq<Seq<char>>> {
    match selection {
        InstanceSelection::All => Some(known),
        InstanceSelection::One(id) => if known.contains(id@) {
            Some(seq![id@])
        } else {
            None
        },
    }
}

fn split_outcomes(outcomes: Vec<Result<InstanceContainer, ContainerError>>) -> (r: (
    Vec<InstanceContainer>,
    Vec<ContainerError>,
))
    ensures
        r.0@ == oks(outcomes@),
        r.1@ == errs(outcomes@),
{
    let ghost all = outcomes@;
    let mut rest = outcomes;
    let mut good: Vec<InstanceContainer> = Vec::new();
    let mut bad: Vec<ContainerError> = Vec::new();
    let ghost mut done: int = 0;
    while rest.len() > 0
        invariant
            0 <= done <= all.len(),
            rest@ == all.skip(done),
            good@ == oks(all.take(done)),
            bad@ == errs(all.take(done)),
        decreases rest.len(),
    {
        let o = rest.remove(0);
        assert(all.take(done + 1).drop_last() =~= all.take(done));
        assert(all.take(done + 1).last() == o);
        proof {
            done = done + 1;
        }
        assert(rest@ =~= all.skip(done));
        match o {
            Ok(c) => good.push(c),
            Err(e) => bad.push(e),
        }
    }
    assert(all.take(done) =~= all);
    (good, bad)
}

/// One network the engine lists, with what was read for it: its metadata
/// record, where there was one to read, and the containers attached to it.
pub struct NetworkListing {
    pub name: String,
    pub data: Option<InstanceData>,
    pub containers: Vec<ListedContainer>,
}

/// What listing an instance shows: identity, state, members, ports, record.
pub ghost struct InstanceView {
    pub uuid: Seq<char>,
    pub status: InstanceStatus,
    pub containers: Seq<ContainerView>,
    pub nginx_port: u32,
    pub adminer_port: u32,
    pub wordpress_data: Option<InstanceData>,
}

pub open spec fn instance_view(i: Instance) -> InstanceView {
    InstanceView {
        uuid: i.uuid@,
        status: i.status,
        containers: containers_view(i.containers@),
        nginx_port: i.nginx_port,
        adminer_port: i.adminer_port,
        wordpress_data: i.wordpress_data,
    }
}

/// The instance that a network with a record shows.
pub open spec fn listed_instance(n: NetworkListing) -> InstanceView {
    InstanceView {
        uuid: n.name@,
        status: aggregate(statuses_of(members(n.name@, n.containers@))),
        containers: members(n.name@, n.containers@),
        nginx_port: n.data->0.nginx_port,
        adminer_port: n.data->0.adminer_port,
        wordpress_data: n.data,
    }
}

/// Whether a network yields an instance when all are listed: it carries the
/// prefix and has a record.
pub open spec fn yields_instance(prefix: Seq<char>, n: NetworkListing) -> bool {
    prefix.is_prefix_of(n.name@) && n.data is Some
}

/// The instances that listing all networks shows, in the order listed: one
/// for each network that carries the prefix and has a record.
pub open spec fn listed_instances(prefix: Seq<char>, ns: Seq<NetworkListing>) -> Seq<InstanceView>
    decreases ns.len(),
{
    if ns.len() == 0 {
        Seq::empty()
    } else {
        let rest = listed_instances(prefix, ns.drop_last());
        if yields_instance(prefix, ns.last()) {
            rest.push(listed_instance(ns.last()))
        } else {
            rest
        }
    }
}

/// A network without a record does not hold up the listing of the others:
/// leaving it out of the listing changes nothing in the result.
pub proof fn lemma_listing_isolation(prefix: Seq<char>, ns: Seq<NetworkListing>, k: int)
    requires
        0 <= k < ns.len(),
        ns[k].data is None,
    ensures
        listed_instances(prefix, ns.remove(k)) == listed_instances(prefix, ns),
    decreases ns.len(),
{
    if k == ns.len() - 1 {
        assert(ns.remove(k) =~= ns.drop_last());
    } else {
        lemma_listing_isolation(prefix, ns.drop_last(), k);
        assert(ns.remove(k).drop_last() =~= ns.drop_last().remove(k));
        assert(ns.remove(k).last() == ns.last());
    }
}

impl Instance {
    /// The instance as created from `plan`: `created` holds, for each planned
    /// container in order, the identity the engine gave it and its state.
    pub fn from_created(plan: InstancePlan, created: Vec<(String, ContainerStatus)>) -> (r: Instance)
        requires
            created@.len() == plan.containers@.len(),
        ensures
            r.uuid == plan.uuid,
            r.containers@.len() == created@.len(),
            forall|i: int| 0 <= i < created@.len() ==> #[trigger] container_view(r.containers@[i]) == (
            created@[i].0@, plan.containers@[i].image, created@[i].1),
            r.status == aggregate(statuses_of(containers_view(r.containers@))),
            r.nginx_port == plan.data.nginx_port,
            r.adminer_port == plan.data.adminer_port,
            r.wordpress_data == Some(plan.data),
    {
        let mut containers: Vec<InstanceContainer> = Vec::new();
        let mut i: usize = 0;
        while i < created.len()
            invariant
                i <= created.len(),
                created@.len() == plan.containers@.len(),
                containers@.len() == i,
                forall|j: int| 0 <= j < i ==> #[trigger] container_view(containers@[j]) == (
                created@[j].0@, plan.containers@[j].image, created@[j].1),
            decreases created.len() - i,
        {
            containers.push(InstanceContainer {
                container_id: created[i].0.clone(),
                container_image: plan.containers[i].image,
                container_status: created[i].1,
            });
            i = i + 1;
        }
        let s = statuses(&containers);
        let status = determine_instance_status(&s);
        let nginx_port = plan.data.nginx_port;
        let adminer_port = plan.data.adminer_port;
        Instance {
            uuid: plan.uuid,
            status,
            containers,
            nginx_port,
            adminer_port,
            wordpress_data: Some(plan.data),
        }
    }

    /// The instance on `network_name`, from its metadata record and the
    /// containers that the engine lists: its members are exactly those
    /// attached to the network whose `instance` label names it. Without a
    /// record the instance cannot be listed.
    #[verifier::rlimit(30)]
    pub fn list_from(network_name: String, data: Option<InstanceData>, listed: &Vec<ListedContainer>) -> (r:
        Result<Instance, InstanceError>)
        ensures
            r is Ok <==> data is Some,
            r matches Err(InstanceError::MetadataMissing { network }) ==> network == network_name,
            r is Err ==> r->Err_0 is MetadataMissing,
            r matches Ok(inst) ==> {
                &&& inst.uuid == network_name
                &&& containers_view(inst.containers@) == members(network_name@, listed@)
                &&& inst.status == aggregate(members(network_name@, listed@).map_values(
                    |c: ContainerView| c.2,
                ))
                &&& inst.nginx_port == data->0.nginx_port
                &&& inst.adminer_port == data->0.adminer_port
                &&& inst.wordpress_data == data
            },
    {
        let data = match data {
            Some(d) => d,
            None => {
                return Err(InstanceError::MetadataMissing { network: network_name });
            },
        };
        let ghost network = network_name@;
        let mut containers: Vec<InstanceContainer> = Vec::new();
        let mut i: usize = 0;
        while i < listed.len()
            invariant
                i <= listed.len(),
                network == network_name@,
                containers_view(containers@) == members(network, listed@.take(i as int)),
            decreases listed.len() - i,
        {
            assert(listed@.take(i + 1).drop_last() =~= listed@.take(i as int));
            assert(listed@.take(i + 1).last() == listed@[i as int]);
            if member_of(&network_name, &listed[i]) {
                let c = observe_listed(&listed[i]);
                containers.push(c);
                assert(containers_view(containers@) =~= members(network, listed@.take(i + 1)));
            }
            i = i + 1;
        }
        assert(listed@.take(i as int) =~= listed@);
        let s = statuses(&containers);
        let status = determine_instance_status(&s);
        let nginx_port = data.nginx_port;
        let adminer_port = data.adminer_port;
        Ok(Instance {
            uuid: network_name,
            status,
            containers,
            nginx_port,
            adminer_port,
            wordpress_data: Some(data),
        })
    }
}

impl Instance {
    /// Lists every instance among the networks the engine reports: each
    /// network carrying `prefix` is listed on its own, and one without a
    /// record is left out rather than failing the whole listing.
    pub fn list_all_from(prefix: &str, networks: Vec<NetworkListing>) -> (r: Vec<Instance>)
        ensures
            r@.map_values(|i: Instance| instance_view(i)) == listed_instances(prefix@, networks@),
    {
        let ghost all = networks@;
        let mut rest = networks;
        let mut r: Vec<Instance> = Vec::new();
        let ghost mut done: int = 0;
        while rest.len() > 0
            invariant
                0 <= done <= all.len(),
                rest@ == all.skip(done),
                r@.map_values(|i: Instance| instance_view(i)) == listed_instances(prefix@, all.take(done)),
            decreases rest.len(),
        {
            let n = rest.remove(0);
            assert(n == all[done]);
            assert(all.take(done + 1).drop_last() =~= all.take(done));
            assert(all.take(done + 1).last() == n);
            proof {
                done = done + 1;
            }
            assert(rest@ =~= all.skip(done));
            if crate::text::text_starts_with(n.name.as_str(), prefix) {
                let NetworkListing { name, data, containers } = n;
                match Instance::list_from(name, data, &containers) {
                    Ok(inst) => {
                        r.push(inst);
                        assert(r@.map_values(|i: Instance| instance_view(i)) =~= listed_instances(
                            prefix@,
                            all.take(done),
                        ));
                    },
                    Err(_) => {},
                }
            }
        }
        assert(all.take(done) =~= all);
        r
    }
}

impl Instance {
    /// The outcome of starting, stopping or restarting the instance `uuid`,
    /// from what the operation gave for each of its containers: a container
    /// that failed is reported and does not stop the others from counting.
    /// The instance's state sums up the containers observed afterwards.
    pub fn operation_info(uuid: String, outcomes: Vec<Result<InstanceContainer, ContainerError>>) -> (r:
        InstanceInfo)
        ensures
            r.uuid == uuid,
            r.containers@ == oks(outcomes@),
            r.failures@ == errs(outcomes@),
            r.status == aggregate(statuses_of(containers_view(oks(outcomes@)))),
    {
        let (containers, failures) = split_outcomes(outcomes);
        let s = statuses(&containers);
        let status = determine_instance_status(&s);
        InstanceInfo { uuid, status, containers, failures }
    }

    /// The outcome of deleting the instance `uuid`: deleted where no
    /// container failed, and otherwise the state of what was observed.
    pub fn deletion_info(uuid: String, outcomes: Vec<Result<InstanceContainer, ContainerError>>) -> (r:
        InstanceInfo)
        ensures
            r.uuid == uuid,
            r.containers@ == oks(outcomes@),
            r.failures@ == errs(outcomes@),
            r.status == if errs(outcomes@).len() == 0 {
                InstanceStatus::Deleted
            } else {
                aggregate(statuses_of(containers_view(oks(outcomes@))))
            },
    {
        let (containers, failures) = split_outcomes(outcomes);
        let status = if failures.len() == 0 {
            InstanceStatus::Deleted
        } else {
            let s = statuses(&containers);
            determine_instance_status(&s)
        };
        InstanceInfo { uuid, status, containers, failures }
    }

    /// The instances an operation applies to, among those `known`; naming an
    /// instance that is not known is an error.
    pub fn select_targets(selection: InstanceSelection, known: &Vec<String>) -> (r: Result<
        Vec<String>,
        InstanceError,
    >)
        ensures
            r matches Ok(v) ==> selected(selection, strings_view(known@)) == Some(
                strings_view(v@),
            ),
            r is Err <==> selected(selection, strings_view(known@)) is None,
            r matches Err(InstanceError::NotFound { uuid }) ==> selection matches InstanceSelection::One(id)
                && uuid == id,
            r is Err ==> r->Err_0 is NotFound,
    {
        let ghost kv = strings_view(known@);
        match selection {
            InstanceSelection::All => {
                let mut v: Vec<String> = Vec::new();
                let mut i: usize = 0;
                while i < known.len()
                    invariant
                        i <= known.len(),
                        kv == strings_view(known@),
                        strings_view(v@) == kv.take(i as int),
                    decreases known.len() - i,
                {
                    let x = known[i].clone();
                    assert(x@ == kv[i as int]);
                    let ghost prev = v@;
                    v.push(x);
                    assert(strings_view(v@) =~= strings_view(prev).push(x@));
                    assert(kv.take(i + 1) =~= kv.take(i as int).push(kv[i as int]));
                    i = i + 1;
                }
                assert(kv.take(i as int) =~= kv);
                Ok(v)
            },
            InstanceSelection::One(id) => {
                let mut i: usize = 0;
                while i < known.len()
                    invariant
                        i <= known.len(),
                        kv == strings_view(known@),
                        forall|j: int| 0 <= j < i ==> kv[j] != id@,
                        selection == InstanceSelection::One(id),
                    decreases known.len() - i,
                {
                    if known[i] == id {
                        assert(kv[i as int] == id@);
                        assert(kv.contains(id@));
                        assert(selected(InstanceSelection::One(id), kv) == Some(seq![id@]));
                        let ghost idv = id@;
                        let mut v: Vec<String> = Vec::new();
                        v.push(id);
                        assert(strings_view(v@) =~= seq![idv]);
                        return Ok(v);
                    }
                    i = i + 1;
                }
                assert(!kv.contains(id@));
                Err(InstanceError::NotFound { uuid: id })
            },
        }
    }
}

impl Instance {
    /// An instance known so far only from the labels of one of its
    /// containers: its ports are read from them, and its state is not yet
    /// known.
    pub fn create_new_instance(instance_label: &str, labels: &Vec<(String, String)>) -> (r: Instance)
        ensures
            r.uuid@ == instance_label@,
            r.status == InstanceStatus::Unknown,
            r.containers@.len() == 0,
            r.nginx_port == port_of(first_value(entries_view(labels@), "nginx_port"@)),
            r.adminer_port == port_of(first_value(entries_view(labels@), "adminer_port"@)),
            r.wordpress_data is None,
    {
        let nginx_port = parse_port(lookup_first(labels, "nginx_port"));
        let adminer_port = parse_port(lookup_first(labels, "adminer_port"));
        Instance {
            uuid: instance_label.to_owned(),
            status: InstanceStatus::Unknown,
            containers: Vec::new(),
            nginx_port,
            adminer_port,
            wordpress_data: None,
        }
    }
}

/// A container created for the instance `label` is found again when the
/// instance's network is listed: while it stays attached to that network,
/// it is a member, and its role is the one it was created with.
pub proof fn lemma_created_container_listed(
    label: Seq<char>,
    nginx_port: u32,
    adminer_port: u32,
    image: ContainerImage,
    c: ListedContainer,
)
    requires
        entries_view(c.labels@) == container_label_set(label, nginx_port, adminer_port, image),
        exists|i: int| 0 <= i < c.networks@.len() && #[trigger] c.networks@[i]@ == network_name_of(label),
    ensures
        is_member(network_name_of(label), c),
        member_view(c) == (c.id@, image, status_of(c.state@)),
{
    let s = entries_view(c.labels@);
    lemma_labels_read_back(label, nginx_port, adminer_port, image);
    reveal_strlit("instance");
    reveal_strlit("image");
    lemma_first_value_unique(s, "instance"@);
    lemma_first_value_unique(s, "image"@);
}

} // verus!
