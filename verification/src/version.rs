//! Version numbers as plain values.
//!
//! The routing core only ever reads a version to render it next to a name, so
//! a version is held as its numeric components plus the optional pre-release
//! and build identifiers. Parsing arbitrary version text is delegated to the
//! `semver` crate behind a trusted wrapper.

use vstd::prelude::*;

verus! {

/// The character for a single decimal digit.
pub open spec fn spec_digit_char(d: nat) -> char {
    if d == 0 {
        '0'
    } else if d == 1 {
        '1'
    } else if d == 2 {
        '2'
    } else if d == 3 {
        '3'
    } else if d == 4 {
        '4'
    } else if d == 5 {
        '5'
    } else if d == 6 {
        '6'
    } else if d == 7 {
        '7'
    } else if d == 8 {
        '8'
    } else {
        '9'
    }
}

/// The decimal rendering of a natural number, most significant digit first.
pub open spec fn spec_dec_digits(n: nat) -> Seq<char>
    decreases n,
{
    if n < 10 {
        seq![spec_digit_char(n)]
    } else {
        spec_dec_digits(n / 10) + seq![spec_digit_char(n % 10)]
    }
}

/// The text for a single decimal digit.
fn digit_str(d: u64) -> (r: &'static str)
    requires
        d < 10,
    ensures
        r@ == seq![spec_digit_char(d as nat)],
{
    proof {
        reveal_strlit("0");
        reveal_strlit("1");
        reveal_strlit("2");
        reveal_strlit("3");
        reveal_strlit("4");
        reveal_strlit("5");
        reveal_strlit("6");
        reveal_strlit("7");
        reveal_strlit("8");
        reveal_strlit("9");
        assert("0"@ =~= seq![spec_digit_char(0)]);
        assert("1"@ =~= seq![spec_digit_char(1)]);
        assert("2"@ =~= seq![spec_digit_char(2)]);
        assert("3"@ =~= seq![spec_digit_char(3)]);
        assert("4"@ =~= seq![spec_digit_char(4)]);
        assert("5"@ =~= seq![spec_digit_char(5)]);
        assert("6"@ =~= seq![spec_digit_char(6)]);
        assert("7"@ =~= seq![spec_digit_char(7)]);
        assert("8"@ =~= seq![spec_digit_char(8)]);
        assert("9"@ =~= seq![spec_digit_char(9)]);
    }
    if d == 0 {
        "0"
    } else if d == 1 {
        "1"
    } else if d == 2 {
        "2"
    } else if d == 3 {
        "3"
    } else if d == 4 {
        "4"
    } else if d == 5 {
        "5"
    } else if d == 6 {
        "6"
    } else if d == 7 {
        "7"
    } else if d == 8 {
        "8"
    } else {
        "9"
    }
}

/// Render a number in decimal.
pub fn u64_to_string(n: u64) -> (r: String)
    ensures
        r@ == spec_dec_digits(n as nat),
    decreases n,
{
    if n < 10 {
        let r = digit_str(n).to_owned();
        proof {
            assert(r@ =~= spec_dec_digits(n as nat));
        }
        r
    } else {
        let mut s = u64_to_string(n / 10);
        s.append(digit_str(n % 10));
        proof {
            assert(s@ =~= spec_dec_digits(n as nat));
        }
        s
    }
}

/// The mathematical value of a [`Version`].
#[verifier::ext_equal]
pub ghost struct VersionView {
    pub major: nat,
    pub minor: nat,
    pub patch: nat,
    pub pre: Seq<char>,
    pub build: Seq<char>,
}

impl VersionView {
    /// The canonical text of this version: `major.minor.patch`, then `-pre`
    /// and `+build` when those identifiers are present.
    pub open spec fn spec_render(self) -> Seq<char> {
        spec_dec_digits(self.major) + "."@ + spec_dec_digits(self.minor) + "."@
            + spec_dec_digits(self.patch) + (if self.pre.len() > 0 {
            "-"@ + self.pre
        } else {
            Seq::<char>::empty()
        }) + (if self.build.len() > 0 {
            "+"@ + self.build
        } else {
            Seq::<char>::empty()
        })
    }
}

/// A version as plain components: numeric core plus optional pre-release and
/// build identifiers, both empty when absent.
#[derive(Clone, Debug)]
pub struct Version {
    pub major: u64,
    pub minor: u64,
    pub patch: u64,
    pub pre: String,
    pub build: String,
}

impl View for Version {
    type V = VersionView;

    open spec fn view(&self) -> VersionView {
        VersionView {
            major: self.major as nat,
            minor: self.minor as nat,
            patch: self.patch as nat,
            pre: self.pre@,
            build: self.build@,
        }
    }
}

impl DeepView for Version {
    type V = VersionView;

    open spec fn deep_view(&self) -> VersionView {
        self.view()
    }
}

impl Version {
    /// A copy of this version with the same components.
    pub fn duplicate(&self) -> (r: Version)
        ensures
            r@ == self@,
    {
        Version {
            major: self.major,
            minor: self.minor,
            patch: self.patch,
            pre: self.pre.clone(),
            build: self.build.clone(),
        }
    }

    /// A plain numeric version with no pre-release or build identifiers.
    pub fn new(major: u64, minor: u64, patch: u64) -> (r: Version)
        ensures
            r@.major == major as nat,
            r@.minor == minor as nat,
            r@.patch == patch as nat,
            r@.pre == Seq::<char>::empty(),
            r@.build == Seq::<char>::empty(),
    {
        Version { major, minor, patch, pre: String::new(), build: String::new() }
    }

    /// Render this version as its canonical text.
    pub fn render(&self) -> (r: String)
        ensures
            r@ == self@.spec_render(),
    {
        let mut s = u64_to_string(self.major);
        s.append(".");
        s.append(u64_to_string(self.minor).as_str());
        s.append(".");
        s.append(u64_to_string(self.patch).as_str());
        if !self.pre.as_str().is_empty() {
            s.append("-");
            s.append(self.pre.as_str());
        }
        if !self.build.as_str().is_empty() {
            s.append("+");
            s.append(self.build.as_str());
        }
        proof {
            assert(s@ =~= self@.spec_render());
        }
        s
    }
}

/// What `semver::Version::parse` makes of a piece of text: the numeric
/// components and the pre-release and build identifiers, or nothing when the
/// text is not a valid version. The result depends on the text alone.
pub uninterp spec fn semver_parse(s: Seq<char>) -> Option<(int, int, int, Seq<char>, Seq<char>)>;

/// Relies on `semver::Version::parse` to decide whether a piece of text is a
/// valid version and to split it into its components.
#[verifier::external_body]
pub fn parse_version(s: &str) -> (r: Option<Version>)
    ensures
        match r {
            Some(v) => semver_parse(s@) == Some(
                (v@.major as int, v@.minor as int, v@.patch as int, v@.pre, v@.build),
            ),
            None => semver_parse(s@) is None,
        },
{
    match semver::Version::parse(s) {
        Ok(v) => Some(
            Version {
                major: v.major,
                minor: v.minor,
                patch: v.patch,
                pre: v.pre.as_str().to_string(),
                build: v.build.as_str().to_string(),
            },
        ),
        Err(_) => None,
    }
}

/// The version text of the foundry code itself.
pub fn module_version_text() -> (r: &'static str)
    ensures
        r@ == "0.1.0"@,
{
    "0.1.0"
}

/// The module's own version, as `semver` parses the module version text:
/// the parsed components when the text is a valid version, nothing
/// otherwise.
pub open spec fn spec_parsed_module_version() -> Option<VersionView> {
    match semver_parse("0.1.0"@) {
        None => None,
        Some((major, minor, patch, pre, build)) => Some(
            VersionView {
                major: major as nat,
                minor: minor as nat,
                patch: patch as nat,
                pre,
                build,
            },
        ),
    }
}

/// The version of the foundry code handling an application, parsed from the
/// module's own version text. Fails with `ConversionError`, naming the
/// module, exactly when that text is not a valid version.
pub fn get_module_version(app_name: &str) -> (r: Result<Version, crate::error::Failure>)
    ensures
        (r is Ok) == (semver_parse("0.1.0"@) is Some),
        r is Ok ==> Some(r->Ok_0@) == spec_parsed_module_version(),
        r is Err ==> r->Err_0@.error == crate::error::FoundryError::ConversionError
            && r->Err_0@.context == app_name@ + " has an invalid version number '0.1.0' in Cargo.toml"@,
{
    match parse_version(module_version_text()) {
        Some(v) => Ok(v),
        None => {
            let mut ctx = String::from_str(app_name);
            ctx.append(" has an invalid version number '0.1.0' in Cargo.toml");
            Err(crate::error::Failure::new(crate::error::FoundryError::ConversionError, ctx))
        },
    }
}

} // verus!
