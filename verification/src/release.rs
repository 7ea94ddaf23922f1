use vstd::prelude::*;

verus! {

/// The distribution releases a sandbox root filesystem can be built for.
#[derive(Clone, Copy, Debug, PartialEq, Eq, Structural)]
pub enum Release {
    DebianJessie,
    DebianStretch,
    DebianBuster,
    UbuntuTrusty,
    UbuntuXenial,
    UbuntuBionic,
    UbuntuCosmic,
}

impl Release {
    /// The distribution family this release belongs to.
    pub open spec fn distro_spec(self) -> Seq<char> {
        match self {
            Release::DebianJessie | Release::DebianStretch | Release::DebianBuster => "debian"@,
            Release::UbuntuTrusty
            | Release::UbuntuXenial
            | Release::UbuntuBionic
            | Release::UbuntuCosmic => "ubuntu"@,
        }
    }

    /// The release codename, as used in image tags and rootfs paths.
    pub open spec fn codename_spec(self) -> Seq<char> {
        match self {
            Release::DebianJessie => "jessie"@,
            Release::DebianStretch => "stretch"@,
            Release::DebianBuster => "buster"@,
            Release::UbuntuTrusty => "trusty"@,
            Release::UbuntuXenial => "xenial"@,
            Release::UbuntuBionic => "bionic"@,
            Release::UbuntuCosmic => "cosmic"@,
        }
    }

    /// Whether the release ships the locales-all package.
    pub open spec fn locales_all_spec(self) -> bool {
        match self {
            Release::DebianJessie => false,
            Release::DebianStretch => true,
            Release::DebianBuster => true,
            Release::UbuntuTrusty => false,
            Release::UbuntuXenial => true,
            Release::UbuntuBionic => true,
            Release::UbuntuCosmic => true,
        }
    }

    pub fn distro(&self) -> (r: &'static str)
        ensures
            r@ == self.distro_spec(),
    {
        match self {
            Release::DebianJessie | Release::DebianStretch | Release::DebianBuster => "debian",
            Release::UbuntuTrusty
            | Release::UbuntuXenial
            | Release::UbuntuBionic
            | Release::UbuntuCosmic => "ubuntu",
        }
    }

    pub fn codename(&self) -> (r: &'static str)
        ensures
            r@ == self.codename_spec(),
    {
        match self {
            Release::DebianJessie => "jessie",
            Release::DebianStretch => "stretch",
            Release::DebianBuster => "buster",
            Release::UbuntuTrusty => "trusty",
            Release::UbuntuXenial => "xenial",
            Release::UbuntuBionic => "bionic",
            Release::UbuntuCosmic => "cosmic",
        }
    }

    /// Older distros lack the locales-all package, which makes the locale
    /// environment a lot more sane for builds.
    pub fn locales_all(&self) -> (r: bool)
        ensures
            r == self.locales_all_spec(),
    {
        match self {
            Release::DebianJessie => false,
            Release::DebianStretch => true,
            Release::DebianBuster => true,
            Release::UbuntuTrusty => false,
            Release::UbuntuXenial => true,
            Release::UbuntuBionic => true,
            Release::UbuntuCosmic => true,
        }
    }
}

} // verus!
