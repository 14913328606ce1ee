//! Version numbers of the interface and the driver, packed as `major:4 minor:4 patch:4`.
use vstd::prelude::*;

verus! {

/// A non-zero packed version number: the patch in the low nibble, the minor above it, the
/// major above that.
#[derive(Clone, Copy, Debug, PartialEq, Eq, Structural, Hash, PartialOrd)]
pub struct Version {
    raw: u16,
}

impl Version {
    #[verifier::type_invariant]
    spec fn inv(&self) -> bool {
        self.raw != 0
    }

    /// The packed number.
    pub closed spec fn spec_raw(&self) -> u16 {
        self.raw
    }

    /// The version packed in `raw`; zero is no version.
    pub fn from_raw(raw: u16) -> (r: Option<Self>)
        ensures
            r is Some <==> raw != 0,
            r matches Some(v) ==> v.spec_raw() == raw,
    {
        if raw != 0 {
            Some(Version { raw })
        } else {
            None
        }
    }

    /// The packed number, never zero.
    pub fn into_raw(self) -> (r: u16)
        ensures
            r == self.spec_raw(),
            r != 0,
    {
        proof {
            use_type_invariant(&self);
        }
        self.raw
    }

    /// The major part: bits 8 to 11.
    pub fn major(&self) -> (r: u8)
        ensures
            r == (self.spec_raw() / 256) % 16,
    {
        let x = self.raw;
        let r = ((x >> 8u16) as u8) & 0xfu8;
        assert(((x >> 8u16) as u8) & 0xfu8 == (x / 256) % 16) by (bit_vector);
        r
    }

    /// The minor part: bits 4 to 7.
    pub fn minor(&self) -> (r: u8)
        ensures
            r == (self.spec_raw() / 16) % 16,
    {
        let x = self.raw;
        let r = ((x >> 4u16) as u8) & 0xfu8;
        assert(((x >> 4u16) as u8) & 0xfu8 == (x / 16) % 16) by (bit_vector);
        r
    }

    /// The patch part: bits 0 to 3.
    pub fn patch(&self) -> (r: u8)
        ensures
            r == self.spec_raw() % 16,
    {
        let x = self.raw;
        let r = (x as u8) & 0xfu8;
        assert((x as u8) & 0xfu8 == x % 16) by (bit_vector);
        r
    }

    /// Major, minor and patch.
    pub fn parts(&self) -> (r: (u8, u8, u8))
        ensures
            r.0 == (self.spec_raw() / 256) % 16,
            r.1 == (self.spec_raw() / 16) % 16,
            r.2 == self.spec_raw() % 16,
    {
        (self.major(), self.minor(), self.patch())
    }
}

/// The versions the driver reported, each of which may be missing.
#[derive(Clone, Copy, Debug, PartialEq, Eq, Hash, PartialOrd)]
pub struct Versions {
    driver_version: Result<Version, VersionError>,
    interface_version: Result<Version, VersionError>,
}

impl Versions {
    /// The driver's version, where it reported one.
    pub closed spec fn spec_driver(&self) -> Result<Version, VersionError> {
        self.driver_version
    }

    /// The interface's version, where it reported one.
    pub closed spec fn spec_interface(&self) -> Result<Version, VersionError> {
        self.interface_version
    }

    /// The versions from the two packed numbers the driver reported; zero stands for none.
    pub fn from_raw(interface_raw: u16, driver_raw: u16) -> (r: Versions)
        ensures
            (r.spec_interface() is Ok <==> interface_raw != 0),
            r.spec_interface() matches Ok(v) ==> v.spec_raw() == interface_raw,
            r.spec_interface() matches Err(e) ==> e == VersionError::Failed,
            (r.spec_driver() is Ok <==> driver_raw != 0),
            r.spec_driver() matches Ok(v) ==> v.spec_raw() == driver_raw,
            r.spec_driver() matches Err(e) ==> e == VersionError::Failed,
    {
        let driver_version = match Version::from_raw(driver_raw) {
            Some(v) => Ok(v),
            None => Err(VersionError::Failed),
        };
        let interface_version = match Version::from_raw(interface_raw) {
            Some(v) => Ok(v),
            None => Err(VersionError::Failed),
        };
        Versions { driver_version, interface_version }
    }

    /// The driver's version.
    pub fn driver_version(&self) -> (r: Result<Version, DriverVersionError>)
        ensures
            r is Ok <==> self.spec_driver() is Ok,
            r matches Ok(v) ==> self.spec_driver() == Ok::<Version, VersionError>(v),
            r matches Err(e) ==> self.spec_driver() == Err::<Version, VersionError>(e.0),
    {
        match self.driver_version {
            Ok(v) => Ok(v),
            Err(e) => Err(DriverVersionError(e)),
        }
    }

    /// The interface's version.
    pub fn interface_version(&self) -> (r: Result<Version, InterfaceVersionError>)
        ensures
            r is Ok <==> self.spec_interface() is Ok,
            r matches Ok(v) ==> self.spec_interface() == Ok::<Version, VersionError>(v),
            r matches Err(e) ==> self.spec_interface() == Err::<Version, VersionError>(e.0),
    {
        match self.interface_version {
            Ok(v) => Ok(v),
            Err(e) => Err(InterfaceVersionError(e)),
        }
    }
}

/// The driver's version is not available.
#[derive(Clone, Copy, Debug, PartialEq, Eq, Structural, Hash, PartialOrd, Ord)]
pub struct DriverVersionError(pub VersionError);

/// The interface's version is not available.
#[derive(Clone, Copy, Debug, PartialEq, Eq, Structural, Hash, PartialOrd, Ord)]
pub struct InterfaceVersionError(pub VersionError);

/// A version number is not available.
#[derive(Clone, Copy, Debug, PartialEq, Eq, Structural, Hash, PartialOrd, Ord)]
pub enum VersionError {
    /// The driver did not report a version number.
    Failed,
}

impl From<VersionError> for DriverVersionError {
    fn from(e: VersionError) -> DriverVersionError {
        DriverVersionError(e)
    }
}

impl vstd::std_specs::convert::FromSpecImpl<VersionError> for DriverVersionError {
    open spec fn obeys_from_spec() -> bool {
        true
    }

    open spec fn from_spec(v: VersionError) -> DriverVersionError {
        DriverVersionError(v)
    }
}

impl From<VersionError> for InterfaceVersionError {
    fn from(e: VersionError) -> InterfaceVersionError {
        InterfaceVersionError(e)
    }
}

impl vstd::std_specs::convert::FromSpecImpl<VersionError> for InterfaceVersionError {
    open spec fn obeys_from_spec() -> bool {
        true
    }

    open spec fn from_spec(v: VersionError) -> InterfaceVersionError {
        InterfaceVersionError(v)
    }
}

} // verus!
