//! The adapter's bus modes: the closed enumeration that travels on the wire
//! and the marker types that parameterise a connection.

use vstd::prelude::*;

use crate::error::Error;

mod sealed;

use sealed::Sealed;

verus! {

/// A marker for the mode that a connection is in.
pub trait ActiveMode: Sealed {
    /// The mode that the marker stands for.
    spec fn mode() -> Modes;

    /// The marker's name as text.
    spec fn spec_mode_name() -> Seq<char>;

    fn mode_name(&self) -> (name: &'static str)
        ensures
            name@ == Self::spec_mode_name(),
    ;
}

/// High impedance: the adapter drives no bus. The mode of a fresh connection.
pub struct HiZ;

/// The adapter is an I2C controller.
pub struct I2c;

/// The adapter is an SPI controller.
pub struct Spi;

impl Sealed for HiZ {

}

impl Sealed for I2c {

}

impl Sealed for Spi {

}

impl ActiveMode for HiZ {
    open spec fn mode() -> Modes {
        Modes::HiZ
    }

    open spec fn spec_mode_name() -> Seq<char> {
        "HiZ"@
    }

    fn mode_name(&self) -> (name: &'static str) {
        "HiZ"
    }
}

impl ActiveMode for I2c {
    open spec fn mode() -> Modes {
        Modes::I2c
    }

    open spec fn spec_mode_name() -> Seq<char> {
        "I2c"@
    }

    fn mode_name(&self) -> (name: &'static str) {
        "I2c"
    }
}

impl ActiveMode for Spi {
    open spec fn mode() -> Modes {
        Modes::Spi
    }

    open spec fn spec_mode_name() -> Seq<char> {
        "Spi"@
    }

    fn mode_name(&self) -> (name: &'static str) {
        "Spi"
    }
}

/// The modes that the driver can put the adapter in.
#[derive(Debug, Clone, Copy, PartialEq, Eq, Structural)]
pub enum Modes {
    HiZ,
    I2c,
    Spi,
}

impl Modes {
    /// The mode's name as the adapter spells it.
    pub open spec fn spec_name(self) -> Seq<char> {
        match self {
            Modes::HiZ => "HiZ"@,
            Modes::I2c => "I2C"@,
            Modes::Spi => "SPI"@,
        }
    }

    /// The name that a configuration request carries to select this mode.
    pub fn name(&self) -> (name: &'static str)
        ensures
            name@ == self.spec_name(),
    {
        match self {
            Modes::HiZ => "HiZ",
            Modes::I2c => "I2C",
            Modes::Spi => "SPI",
        }
    }

    /// The mode that the adapter calls `s`. The adapter has more modes than
    /// the driver can put it in; the name of one of those, like any other
    /// text, is an error.
    pub fn from_str(s: &str) -> (mode: Result<Modes, Error>)
        ensures
            match mode {
                Ok(m) => s@ == m.spec_name(),
                Err(e) => e == Error::Other && s@ != Modes::HiZ.spec_name() && s@
                    != Modes::I2c.spec_name() && s@ != Modes::Spi.spec_name(),
            },
    {
        if str_eq(s, "HiZ") {
            Ok(Modes::HiZ)
        } else if str_eq(s, "I2C") {
            Ok(Modes::I2c)
        } else if str_eq(s, "SPI") {
            Ok(Modes::Spi)
        } else {
            Err(Error::Other)
        }
    }
}

impl std::str::FromStr for Modes {
    type Err = Error;

    /// As [`Modes::from_str`], for `str::parse`: the mode whose name `s`
    /// is, and an error for any other text.
    fn from_str(s: &str) -> (mode: Result<Modes, Error>)
        ensures
            match mode {
                Ok(m) => s@ == m.spec_name(),
                Err(e) => e == Error::Other && s@ != Modes::HiZ.spec_name() && s@
                    != Modes::I2c.spec_name() && s@ != Modes::Spi.spec_name(),
            },
    {
        Modes::from_str(s)
    }
}

/// `==` on string slices, which holds exactly of equal texts.
#[verifier::external_body]
fn str_eq(a: &str, b: &str) -> (equal: bool)
    ensures
        equal == (a@ == b@),
{
    a == b
}

/// The three modes have three names: a name stands for one mode at most.
pub proof fn lemma_names_differ(a: Modes, b: Modes)
    ensures
        a.spec_name() == b.spec_name() ==> a == b,
{
    reveal_strlit("HiZ");
    reveal_strlit("I2C");
    reveal_strlit("SPI");
    assert("HiZ"@[0] == 'H');
    assert("I2C"@[0] == 'I');
    assert("SPI"@[0] == 'S');
}

} // verus!
