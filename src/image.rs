//! The four roles of an instance's containers.
use vstd::prelude::*;
use crate::text::text_eq;

verus! {

/// The role of a container within an instance; it also names the image.
#[derive(Clone, Copy, Debug, PartialEq, Eq, Structural)]
pub enum ContainerImage {
    Adminer,
    MySQL,
    Nginx,
    Wordpress,
    Unknown,
}

pub open spec fn image_name(i: ContainerImage) -> Seq<char> {
    match i {
        ContainerImage::Adminer => "adminer"@,
        ContainerImage::MySQL => "mysql"@,
        ContainerImage::Nginx => "nginx"@,
        ContainerImage::Wordpress => "wordpress"@,
        ContainerImage::Unknown => "unknown"@,
    }
}

/// The role that an image label names; anything unrecognised is `Unknown`.
pub open spec fn image_of(s: Seq<char>) -> ContainerImage {
    if s == "adminer"@ {
        ContainerImage::Adminer
    } else if s == "mysql"@ {
        ContainerImage::MySQL
    } else if s == "nginx"@ {
        ContainerImage::Nginx
    } else if s == "wordpress"@ {
        ContainerImage::Wordpress
    } else {
        ContainerImage::Unknown
    }
}

impl ContainerImage {
    pub fn to_string(&self) -> (r: String)
        ensures
            r@ == image_name(*self),
    {
        match self {
            ContainerImage::Adminer => "adminer".to_owned(),
            ContainerImage::MySQL => "mysql".to_owned(),
            ContainerImage::Nginx => "nginx".to_owned(),
            ContainerImage::Wordpress => "wordpress".to_owned(),
            ContainerImage::Unknown => "unknown".to_owned(),
        }
    }

    pub fn from_str(image: &str) -> (r: ContainerImage)
        ensures
            r == image_of(image@),
    {
        if text_eq(image, "adminer") {
            ContainerImage::Adminer
        } else if text_eq(image, "mysql") {
            ContainerImage::MySQL
        } else if text_eq(image, "nginx") {
            ContainerImage::Nginx
        } else if text_eq(image, "wordpress") {
            ContainerImage::Wordpress
        } else {
            ContainerImage::Unknown
        }
    }
}

/// Each role's name reads back as that role.
pub proof fn lemma_image_name_round_trip(i: ContainerImage)
    ensures
        image_of(image_name(i)) == i,
{
    reveal_strlit("adminer");
    reveal_strlit("mysql");
    reveal_strlit("nginx");
    reveal_strlit("wordpress");
    reveal_strlit("unknown");
    match i {
        ContainerImage::MySQL => assert("mysql"@[0] != "nginx"@[0]),
        ContainerImage::Nginx => assert("nginx"@[0] != "mysql"@[0]),
        ContainerImage::Unknown => assert("unknown"@[0] != "adminer"@[0]),
        _ => {},
    }
}

} // verus!
