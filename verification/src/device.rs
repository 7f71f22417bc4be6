use vstd::prelude::*;

verus! {

/// The instruction-set family of a supported device.
#[derive(Clone, Debug)]
pub enum Target {
    ARM { version: u8, class: String },
}

/// Immutable build-time description of a supported device.
#[derive(Clone, Debug)]
pub struct Description {
    /// Identifier the `DEVICE` environment variable is matched against.
    pub name: String,
    /// Target triple the device is built for.
    pub abi: String,
    /// Whether the device has a floating-point unit.
    pub fpu: bool,
    /// Instruction-set family of the device.
    pub target: Target,
}

/// A device selected at build configuration time.
#[allow(non_camel_case_types)]
#[derive(Clone, Debug)]
pub enum Device {
    KNOWN(Description),
}

/// A build-time configuration error; every one of these aborts the build.
#[derive(Clone, Copy, PartialEq, Eq, Structural, Debug)]
pub enum BuildError {
    /// The requested `DEVICE` is not in the supported-device table.
    UnknownDevice,
}

/// The identifier of a device.
pub open spec fn device_name(d: Device) -> Seq<char> {
    match d {
        Device::KNOWN(desc) => desc.name@,
    }
}

/// The target triple of a device.
pub open spec fn device_abi(d: Device) -> Seq<char> {
    match d {
        Device::KNOWN(desc) => desc.abi@,
    }
}

/// Whether a device has a floating-point unit.
pub open spec fn device_fpu(d: Device) -> bool {
    match d {
        Device::KNOWN(desc) => desc.fpu,
    }
}

/// The architecture-class directory name of a device.
pub open spec fn device_class(d: Device) -> Seq<char> {
    match d {
        Device::KNOWN(desc) => match desc.target {
            Target::ARM { class, .. } => class@,
        },
    }
}

/// The architecture version of a device.
pub open spec fn device_version(d: Device) -> u8 {
    match d {
        Device::KNOWN(desc) => match desc.target {
            Target::ARM { version, .. } => version,
        },
    }
}

/// The architecture version of a target.
pub open spec fn target_version(t: Target) -> u8 {
    match t {
        Target::ARM { version, .. } => version,
    }
}

/// The architecture-class directory name of a target.
pub open spec fn target_class(t: Target) -> Seq<char> {
    match t {
        Target::ARM { class, .. } => class@,
    }
}

/// A target names one of the three supported ARM architecture revisions,
/// and its class directory matches its version.
pub open spec fn target_wf(t: Target) -> bool {
    ||| (target_version(t) == 6 && target_class(t) == "armv6"@)
    ||| (target_version(t) == 7 && target_class(t) == "armv7"@)
    ||| (target_version(t) == 8 && target_class(t) == "armv8"@)
}

impl Device {
    /// The identifier the device was looked up under.
    pub fn name(&self) -> (r: &str)
        ensures
            r@ == device_name(*self),
    {
        match self {
            Device::KNOWN(desc) => desc.name.as_str(),
        }
    }

    /// The architecture-class directory name of the device.
    pub fn class(&self) -> (r: &str)
        ensures
            r@ == device_class(*self),
    {
        match self {
            Device::KNOWN(desc) => match &desc.target {
                Target::ARM { class, .. } => class.as_str(),
            },
        }
    }

    /// Whether the device has a floating-point unit.
    pub fn fpu(&self) -> (r: bool)
        ensures
            r == device_fpu(*self),
    {
        match self {
            Device::KNOWN(desc) => desc.fpu,
        }
    }
}

/// Exact character-for-character equality of two names.
pub fn str_eq(a: &str, b: &str) -> (r: bool)
    ensures
        r == (a@ == b@),
{
    let n = a.unicode_len();
    let m = b.unicode_len();
    if n != m {
        return false;
    }
    let mut i: usize = 0;
    while i < n
        invariant
            i <= n,
            n == a@.len(),
            n == b@.len(),
            forall|j: int| 0 <= j < i ==> a@[j] == b@[j],
        decreases n - i,
    {
        if a.get_char(i) != b.get_char(i) {
            return false;
        }
        i = i + 1;
    }
    proof {
        assert(a@ =~= b@);
    }
    true
}

/// Parses an architecture-class name into a target descriptor; a name
/// that is not a supported class falls back to ARMv7. The result always
/// satisfies `target_wf`.
pub fn target_from_class(s: &str) -> (t: Target)
    ensures
        target_wf(t),
        s@ == "armv6"@ ==> target_version(t) == 6,
        s@ == "armv7"@ ==> target_version(t) == 7,
        s@ == "armv8"@ ==> target_version(t) == 8,
        s@ != "armv6"@ && s@ != "armv8"@ ==> target_version(t) == 7,
        target_version(t) == 6 ==> target_class(t) == "armv6"@,
        target_version(t) == 7 ==> target_class(t) == "armv7"@,
        target_version(t) == 8 ==> target_class(t) == "armv8"@,
{
    proof {
        reveal_strlit("armv6");
        reveal_strlit("armv7");
        reveal_strlit("armv8");
        assert("armv6"@.len() == 5);
        assert("armv6"@[4] == '6' && "armv7"@[4] == '7' && "armv8"@[4] == '8');
        assert("armv6"@ != "armv7"@);
        assert("armv6"@ != "armv8"@);
        assert("armv8"@ != "armv7"@);
    }
    if str_eq(s, "armv6") {
        Target::ARM { version: 6, class: String::from_str("armv6") }
    } else if str_eq(s, "armv8") {
        Target::ARM { version: 8, class: String::from_str("armv8") }
    } else {
        Target::ARM { version: 7, class: String::from_str("armv7") }
    }
}

/// ASCII lower-casing of one character; the device table is matched
/// case-insensitively.
pub open spec fn lower_char(c: char) -> char {
    if 'A' <= c && c <= 'Z' {
        (((c as u8) + 32) as char)
    } else {
        c
    }
}

/// ASCII lower-casing of a name, character by character.
pub open spec fn lower_chars(s: Seq<char>) -> Seq<char> {
    s.map_values(|c: char| lower_char(c))
}

fn lower_char_exec(c: char) -> (r: char)
    ensures
        r == lower_char(c),
{
    if c >= 'A' && c <= 'Z' {
        ((c as u8) + 32) as char
    } else {
        c
    }
}

/// Compares two names up to ASCII case.
pub fn eq_ignore_ascii_case(a: &str, b: &str) -> (r: bool)
    ensures
        r == (lower_chars(a@) == lower_chars(b@)),
{
    let n = a.unicode_len();
    let m = b.unicode_len();
    if n != m {
        proof {
            assert(lower_chars(a@).len() == a@.len());
            assert(lower_chars(b@).len() == b@.len());
        }
        return false;
    }
    let mut i: usize = 0;
    while i < n
        invariant
            i <= n,
            n == a@.len(),
            n == b@.len(),
            forall|j: int| 0 <= j < i ==> lower_char(a@[j]) == lower_char(b@[j]),
        decreases n - i,
    {
        let ca = lower_char_exec(a.get_char(i));
        let cb = lower_char_exec(b.get_char(i));
        if ca != cb {
            proof {
                assert(lower_chars(a@)[i as int] != lower_chars(b@)[i as int]);
            }
            return false;
        }
        i = i + 1;
    }
    proof {
        assert(lower_chars(a@) =~= lower_chars(b@));
    }
    true
}

/// The table of supported devices: presently the single entry
/// `lm3s6965`, an ARMv7-M part without an FPU.
pub fn supported_devices() -> (v: Vec<Device>)
    ensures
        v@.len() == 1,
        device_name(v@[0]) == "lm3s6965"@,
        device_abi(v@[0]) == "thumbv7m-none-eabi"@,
        !device_fpu(v@[0]),
        device_class(v@[0]) == "armv7"@,
        device_version(v@[0]) == 7u8,
{
    let d = Device::KNOWN(Description {
        name: String::from_str("lm3s6965"),
        abi: String::from_str("thumbv7m-none-eabi"),
        fpu: false,
        target: Target::ARM { version: 7, class: String::from_str("armv7") },
    });
    let mut v: Vec<Device> = Vec::new();
    v.push(d);
    v
}

/// The default device name stays fixed under ASCII lower-casing.
pub proof fn lemma_default_name_is_lowercase()
    ensures
        lower_chars("lm3s6965"@) == "lm3s6965"@,
{
    reveal_strlit("lm3s6965");
    assert(lower_chars("lm3s6965"@) =~= "lm3s6965"@);
}

/// Resolves the device selection made through the `DEVICE` environment
/// variable: an absent request falls back to the default `lm3s6965`,
/// matching against the supported-device table is case-insensitive, and
/// an unknown name is a fatal configuration error.
pub fn resolve_device(request: Option<&str>) -> (r: Result<Device, BuildError>)
    ensures
        ({
            let req = match request {
                Some(s) => s@,
                None => "lm3s6965"@,
            };
            &&& (r is Ok <==> lower_chars(req) == "lm3s6965"@)
            &&& (r matches Ok(d) ==> {
                &&& device_name(d) == "lm3s6965"@
                &&& device_abi(d) == "thumbv7m-none-eabi"@
                &&& !device_fpu(d)
                &&& device_class(d) == "armv7"@
                &&& device_version(d) == 7u8
            })
            &&& (r matches Err(e) ==> e == BuildError::UnknownDevice)
        }),
{
    let name: &str = match request {
        Some(s) => s,
        None => "lm3s6965",
    };
    let mut devs = supported_devices();
    proof {
        lemma_default_name_is_lowercase();
    }
    let d0 = &devs[0];
    let matched = match d0 {
        Device::KNOWN(desc) => eq_ignore_ascii_case(name, desc.name.as_str()),
    };
    if matched {
        Ok(devs.swap_remove(0))
    } else {
        Err(BuildError::UnknownDevice)
    }
}

} // verus!
