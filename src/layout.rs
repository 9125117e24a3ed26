//! Names and places derived from an instance's label.
use vstd::prelude::*;
use crate::image::{image_name, ContainerImage};
use crate::text::{concat, join3, text_starts_with};

verus! {

/// The prefix of every instance's private network.
pub const NETWORK_NAME: &'static str = "wp-network";

pub open spec fn network_name_of(label: Seq<char>) -> Seq<char> {
    NETWORK_NAME@ + "-"@ + label
}

pub open spec fn container_name_of(label: Seq<char>, image: ContainerImage) -> Seq<char> {
    label + "-"@ + image_name(image)
}

/// The directory that holds an instance's files, under the storage root.
pub open spec fn instance_dir_of(root: Seq<char>, label: Seq<char>) -> Seq<char> {
    root + "/"@ + network_name_of(label)
}

pub open spec fn metadata_path_of(dir: Seq<char>) -> Seq<char> {
    dir + "/instance.toml"@
}

/// The name of the private network of the instance `label`; it is also the
/// instance's identifier.
pub fn network_name(label: &str) -> (r: String)
    ensures
        r@ == network_name_of(label@),
{
    join3(NETWORK_NAME, "-", label)
}

/// The name of the container with role `image` in the instance `label`.
pub fn container_name(label: &str, image: ContainerImage) -> (r: String)
    ensures
        r@ == container_name_of(label@, image),
{
    let name = image.to_string();
    join3(label, "-", name.as_str())
}

pub fn instance_dir(root: &str, label: &str) -> (r: String)
    ensures
        r@ == instance_dir_of(root@, label@),
{
    let network = network_name(label);
    join3(root, "/", network.as_str())
}

/// Where an instance's metadata file lies within its directory.
pub fn metadata_path(dir: &str) -> (r: String)
    ensures
        r@ == metadata_path_of(dir@),
{
    concat(dir, "/instance.toml")
}

/// Whether `name` names an instance's network: it carries the instance prefix.
pub fn is_instance_network(name: &str, prefix: &str) -> (r: bool)
    ensures
        r == prefix@.is_prefix_of(name@),
{
    text_starts_with(name, prefix)
}

} // verus!
