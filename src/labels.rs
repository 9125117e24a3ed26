//! The labels attached to every container of an instance: they alone tie a
//! container to its instance and record the instance's ports.
use vstd::prelude::*;
use crate::image::{image_name, lemma_image_name_round_trip, ContainerImage};
use crate::container::role_of_label;
use crate::kv::{entries_view, entry_map, has_key, insert_entry, keys_unique, lemma_with_entry, with_entry, Entry};
use crate::text::{decimal, decimal_string, lemma_parse_decimal, parse_u32, parsed_u32};

verus! {

/// The port a label holds: its number where it reads as one, else 0.
pub open spec fn port_of(label: Option<Seq<char>>) -> u32 {
    match label {
        Some(s) => match parsed_u32(s) {
            Some(v) => v,
            None => 0,
        },
        None => 0,
    }
}

pub open spec fn opt_view(s: Option<&String>) -> Option<Seq<char>> {
    match s {
        Some(t) => Some(t@),
        None => None,
    }
}

/// The labels shared by all containers of an instance.
pub open spec fn instance_label_set(label: Seq<char>, nginx_port: u32, adminer_port: u32) -> Seq<Entry> {
    seq![
        ("instance"@, label),
        ("nginx_port"@, decimal(nginx_port as nat)),
        ("adminer_port"@, decimal(adminer_port as nat)),
    ]
}

/// The labels of the container with role `image`.
pub open spec fn container_label_set(
    label: Seq<char>,
    nginx_port: u32,
    adminer_port: u32,
    image: ContainerImage,
) -> Seq<Entry> {
    with_entry(instance_label_set(label, nginx_port, adminer_port), "image"@, image_name(image))
}

/// Reads a port from a label; a missing or malformed label gives 0.
pub fn parse_port(port_label: Option<&String>) -> (r: u32)
    ensures
        r == port_of(opt_view(port_label)),
{
    match port_label {
        Some(s) => match parse_u32(s.as_str()) {
            Some(v) => v,
            None => 0,
        },
        None => 0,
    }
}

proof fn lemma_instance_label_keys(label: Seq<char>, nginx_port: u32, adminer_port: u32)
    ensures
        keys_unique(instance_label_set(label, nginx_port, adminer_port)),
        !has_key(instance_label_set(label, nginx_port, adminer_port), "image"@),
{
    reveal_strlit("instance");
    reveal_strlit("nginx_port");
    reveal_strlit("adminer_port");
    reveal_strlit("image");
    let s = instance_label_set(label, nginx_port, adminer_port);
    assert(s[0].0.len() == 8 && s[1].0.len() == 10 && s[2].0.len() == 12);
    assert forall|i: int, j: int| 0 <= i < s.len() && 0 <= j < s.len() && i != j implies s[i].0
        != s[j].0 by {
        assert(s[i].0.len() != s[j].0.len());
    }
    assert forall|i: int| 0 <= i < s.len() implies #[trigger] s[i].0 != "image"@ by {
        assert(s[i].0.len() != 5);
    }
}

/// The labels shared by all containers of the instance `label`.
pub fn instance_labels(label: &str, nginx_port: u32, adminer_port: u32) -> (r: Vec<(String, String)>)
    ensures
        entries_view(r@) == instance_label_set(label@, nginx_port, adminer_port),
        keys_unique(entries_view(r@)),
{
    let mut r: Vec<(String, String)> = Vec::new();
    r.push(("instance".to_owned(), label.to_owned()));
    r.push(("nginx_port".to_owned(), decimal_string(nginx_port)));
    r.push(("adminer_port".to_owned(), decimal_string(adminer_port)));
    proof {
        lemma_instance_label_keys(label@, nginx_port, adminer_port);
    }
    assert(entries_view(r@) =~= instance_label_set(label@, nginx_port, adminer_port));
    r
}

/// `labels` with the `image` label naming the role `image`.
pub fn create_labels(image: ContainerImage, labels: Vec<(String, String)>) -> (r: Vec<(String, String)>)
    requires
        keys_unique(entries_view(labels@)),
    ensures
        entries_view(r@) == with_entry(entries_view(labels@), "image"@, image_name(image)),
        keys_unique(entries_view(r@)),
{
    let mut r = labels;
    insert_entry(&mut r, "image".to_owned(), image.to_string());
    r
}

/// What the labels of a container give back: the instance's label, both of
/// its ports, and the container's role, as they were at creation.
pub proof fn lemma_labels_read_back(
    label: Seq<char>,
    nginx_port: u32,
    adminer_port: u32,
    image: ContainerImage,
)
    ensures
        keys_unique(container_label_set(label, nginx_port, adminer_port, image)),
        has_key(container_label_set(label, nginx_port, adminer_port, image), "instance"@),
        has_key(container_label_set(label, nginx_port, adminer_port, image), "image"@),
        entry_map(container_label_set(label, nginx_port, adminer_port, image))["instance"@] == label,
        port_of(Some(entry_map(container_label_set(label, nginx_port, adminer_port, image))["nginx_port"@]))
            == nginx_port,
        port_of(Some(entry_map(container_label_set(label, nginx_port, adminer_port, image))["adminer_port"@]))
            == adminer_port,
        role_of_label(Some(entry_map(container_label_set(label, nginx_port, adminer_port, image))["image"@]))
            == image,
{
    let base = instance_label_set(label, nginx_port, adminer_port);
    lemma_instance_label_keys(label, nginx_port, adminer_port);
    lemma_with_entry(base, "image"@, image_name(image));
    reveal_strlit("instance");
    reveal_strlit("nginx_port");
    reveal_strlit("adminer_port");
    reveal_strlit("image");
    let m = entry_map(base);
    assert(base[0].0 == "instance"@);
    assert(base[1].0 == "nginx_port"@);
    assert(base[2].0 == "adminer_port"@);
    crate::kv::lemma_index_of(base, "instance"@, 0);
    crate::kv::lemma_index_of(base, "nginx_port"@, 1);
    crate::kv::lemma_index_of(base, "adminer_port"@, 2);
    assert(m["instance"@] == label);
    assert(m["nginx_port"@] == decimal(nginx_port as nat));
    assert(m["adminer_port"@] == decimal(adminer_port as nat));
    lemma_parse_decimal(nginx_port);
    lemma_parse_decimal(adminer_port);
    lemma_image_name_round_trip(image);
    let t = container_label_set(label, nginx_port, adminer_port, image);
    assert(t == base.push(("image"@, image_name(image))));
    assert(t[0].0 == "instance"@);
    assert(t[3].0 == "image"@);
}

} // verus!
