//! Machine architectures of the host and of container images, and whether
//! one can run the other.
use vstd::prelude::*;
use crate::mapping::contains_string;
use crate::text::{
    ascii_lower_text, chars_eq_str, chars_of, contains_str, contains_sub, lowercase, owned, str_eq, to_lowercase,
    views,
};

verus! {

/// Architecture of a system.
#[derive(Debug, Clone, PartialEq, Eq)]
pub struct ArchitectureInfo {
    /// The architecture name (e.g. "amd64", "arm64", "armv7")
    pub arch: String,
    /// Alternative names for this architecture
    pub aliases: Vec<String>,
    /// Whether this is a 64-bit architecture
    pub is_64bit: bool,
}

/// Model of an `ArchitectureInfo`.
#[verifier::ext_equal]
pub struct ArchModel {
    pub arch: Seq<char>,
    pub aliases: Seq<Seq<char>>,
    pub is_64bit: bool,
}

impl View for ArchitectureInfo {
    type V = ArchModel;

    open spec fn view(&self) -> ArchModel {
        ArchModel { arch: self.arch@, aliases: views(self.aliases@), is_64bit: self.is_64bit }
    }
}

/// The architecture a name stands for. Known names (read without regard to
/// case) map to their canonical name and aliases; any other name stands for
/// itself, 64-bit when it contains "64".
pub open spec fn arch_info_of(a: Seq<char>) -> ArchModel {
    let l = lowercase(a);
    if l == "x86_64"@ || l == "amd64"@ {
        ArchModel { arch: "amd64"@, aliases: seq!["x86_64"@], is_64bit: true }
    } else if l == "aarch64"@ || l == "arm64"@ {
        ArchModel { arch: "arm64"@, aliases: seq!["aarch64"@], is_64bit: true }
    } else if l == "armv7l"@ || l == "armv7"@ || l == "armhf"@ {
        ArchModel { arch: "armv7"@, aliases: seq!["armv7l"@, "armhf"@], is_64bit: false }
    } else if l == "i386"@ || l == "i686"@ {
        ArchModel { arch: "i386"@, aliases: seq!["i686"@], is_64bit: false }
    } else if l == "ppc64le"@ {
        ArchModel { arch: "ppc64le"@, aliases: seq![], is_64bit: true }
    } else if l == "s390x"@ {
        ArchModel { arch: "s390x"@, aliases: seq![], is_64bit: true }
    } else {
        ArchModel { arch: a, aliases: seq![], is_64bit: contains_sub(a, "64"@) }
    }
}

/// A host of architecture `s` runs images of architecture `o` natively: the
/// same architecture (by name or alias), or 32-bit code on its 64-bit
/// counterpart (i386 on amd64, armv7 on arm64).
pub open spec fn compatible(s: ArchModel, o: ArchModel) -> bool {
    ||| s.arch == o.arch
    ||| s.aliases.contains(o.arch)
    ||| o.aliases.contains(s.arch)
    ||| (s.arch == "amd64"@ && o.arch == "i386"@)
    ||| (s.arch == "arm64"@ && o.arch == "armv7"@)
}

/// A list of owned strings from literals.
fn strings(a: &str, b: Option<&str>) -> (r: Vec<String>)
    ensures
        views(r@) == (match b {
            Some(x) => seq![a@, x@],
            None => seq![a@],
        }),
{
    let mut r: Vec<String> = Vec::new();
    let first = owned(a);
    r.push(first);
    match b {
        Some(x) => {
            let second = owned(x);
            r.push(second);
        },
        None => {},
    }
    assert(views(r@) =~= (match b {
        Some(x) => seq![a@, x@],
        None => seq![a@],
    }));
    r
}

/// A canonical architecture name, as its own lowercase form.
fn canonical(name: &str) -> (r: String)
    requires
        ascii_lower_text(name@),
    ensures
        r@ == name@,
        lowercase(name@) == name@,
{
    to_lowercase(name)
}

impl ArchitectureInfo {
    /// The architecture named `arch`. Reading the resulting architecture's
    /// name again gives the same architecture.
    pub fn from_arch(arch: &str) -> (r: Self)
        ensures
            r@ == arch_info_of(arch@),
            arch_info_of(r.arch@) == r@,
    {
        proof {
            reveal_strlit("amd64");
            reveal_strlit("arm64");
            reveal_strlit("armv7");
            reveal_strlit("i386");
            reveal_strlit("ppc64le");
            reveal_strlit("s390x");
            reveal_strlit("x86_64");
            reveal_strlit("aarch64");
            reveal_strlit("armv7l");
            reveal_strlit("armhf");
            reveal_strlit("i686");
        }
        let low = to_lowercase(arch);
        let l = chars_of(low.as_str());
        if chars_eq_str(&l, "x86_64") || chars_eq_str(&l, "amd64") {
            let r = ArchitectureInfo { arch: canonical("amd64"), aliases: strings("x86_64", None), is_64bit: true };
            assert(r@ =~= arch_info_of(arch@));
            assert(arch_info_of(r.arch@) =~= r@);
            r
        } else if chars_eq_str(&l, "aarch64") || chars_eq_str(&l, "arm64") {
            let r = ArchitectureInfo { arch: canonical("arm64"), aliases: strings("aarch64", None), is_64bit: true };
            assert(r@ =~= arch_info_of(arch@));
            assert("arm64"@[1] != "amd64"@[1]);
            assert(arch_info_of(r.arch@) =~= r@);
            r
        } else if chars_eq_str(&l, "armv7l") || chars_eq_str(&l, "armv7") || chars_eq_str(&l, "armhf") {
            let r = ArchitectureInfo {
                arch: canonical("armv7"),
                aliases: strings("armv7l", Some("armhf")),
                is_64bit: false,
            };
            assert(r@ =~= arch_info_of(arch@));
            assert("armv7"@[1] != "amd64"@[1] && "armv7"@[3] != "arm64"@[3]);
            assert(arch_info_of(r.arch@) =~= r@);
            r
        } else if chars_eq_str(&l, "i386") || chars_eq_str(&l, "i686") {
            let r = ArchitectureInfo { arch: canonical("i386"), aliases: strings("i686", None), is_64bit: false };
            assert(r@ =~= arch_info_of(arch@));
            assert(arch_info_of(r.arch@) =~= r@);
            r
        } else if chars_eq_str(&l, "ppc64le") {
            let r = ArchitectureInfo { arch: canonical("ppc64le"), aliases: Vec::new(), is_64bit: true };
            assert(r@ =~= arch_info_of(arch@));
            assert(arch_info_of(r.arch@) =~= r@);
            r
        } else if chars_eq_str(&l, "s390x") {
            let r = ArchitectureInfo { arch: canonical("s390x"), aliases: Vec::new(), is_64bit: true };
            assert(r@ =~= arch_info_of(arch@));
            assert(arch_info_of(r.arch@) =~= r@);
            r
        } else {
            let original = chars_of(arch);
            let wide = contains_str(&original, "64");
            let r = ArchitectureInfo { arch: owned(arch), aliases: Vec::new(), is_64bit: wide };
            assert(r@ =~= arch_info_of(arch@));
            r
        }
    }

    /// Whether this host runs `other` images natively.
    pub fn is_compatible_with(&self, other: &ArchitectureInfo) -> (r: bool)
        ensures
            r == compatible(self@, other@),
    {
        if self.arch == other.arch {
            return true;
        }
        if contains_string(&self.aliases, &other.arch) || contains_string(&other.aliases, &self.arch) {
            return true;
        }
        (str_eq(self.arch.as_str(), "amd64") && str_eq(other.arch.as_str(), "i386")) || (str_eq(
            self.arch.as_str(),
            "arm64",
        ) && str_eq(other.arch.as_str(), "armv7"))
    }

    /// Whether this host needs emulation to run `other` images.
    pub fn needs_emulation(&self, other: &ArchitectureInfo) -> (r: bool)
        ensures
            r == !compatible(self@, other@),
    {
        !self.is_compatible_with(other)
    }
}

/// Whether a host can run an image, and how.
#[derive(Debug, Clone, PartialEq, Eq)]
pub struct ArchitectureCompatibility {
    /// Host architecture
    pub host: ArchitectureInfo,
    /// Image architecture
    pub image: ArchitectureInfo,
    /// Whether emulation is needed
    pub needs_emulation: bool,
    /// Whether emulation is available (QEMU)
    pub emulation_available: bool,
    /// Warnings about compatibility
    pub warnings: Vec<String>,
}

/// The warnings for a host that needs emulation or not, with emulation
/// available or not.
pub open spec fn warnings_for(needs_emulation: bool, emulation_available: bool) -> Seq<Seq<char>> {
    if !needs_emulation {
        seq![]
    } else if emulation_available {
        seq![
            "Container will run under emulation, which may be significantly slower"@,
            "Consider using native architecture images for better performance"@,
        ]
    } else {
        seq![
            "Container architecture is not compatible with host and emulation is not available"@,
            "Install qemu-user-static or use containers matching your host architecture"@,
        ]
    }
}

/// The warnings about running under emulation, or about not being able to.
pub fn generate_compatibility_warnings(needs_emulation: bool, emulation_available: bool) -> (r: Vec<
    String,
>)
    ensures
        views(r@) == warnings_for(needs_emulation, emulation_available),
{
    if !needs_emulation {
        let r: Vec<String> = Vec::new();
        assert(views(r@) =~= warnings_for(needs_emulation, emulation_available));
        r
    } else if emulation_available {
        strings(
            "Container will run under emulation, which may be significantly slower",
            Some("Consider using native architecture images for better performance"),
        )
    } else {
        strings(
            "Container architecture is not compatible with host and emulation is not available",
            Some("Install qemu-user-static or use containers matching your host architecture"),
        )
    }
}

/// The name QEMU uses for an architecture.
pub open spec fn qemu_arch_of(a: Seq<char>) -> Seq<char> {
    if a == "arm64"@ || a == "aarch64"@ {
        "aarch64"@
    } else if a == "armv7"@ || a == "armv7l"@ || a == "armhf"@ {
        "arm"@
    } else if a == "i386"@ || a == "i686"@ {
        "i386"@
    } else if a == "amd64"@ || a == "x86_64"@ {
        "x86_64"@
    } else if a == "ppc64le"@ {
        "ppc64le"@
    } else if a == "s390x"@ {
        "s390x"@
    } else {
        a
    }
}

/// The name QEMU uses for the architecture `arch`.
pub fn get_qemu_arch(arch: &str) -> (r: String)
    ensures
        r@ == qemu_arch_of(arch@),
{
    if str_eq(arch, "arm64") || str_eq(arch, "aarch64") {
        owned("aarch64")
    } else if str_eq(arch, "armv7") || str_eq(arch, "armv7l") || str_eq(arch, "armhf") {
        owned("arm")
    } else if str_eq(arch, "i386") || str_eq(arch, "i686") {
        owned("i386")
    } else if str_eq(arch, "amd64") || str_eq(arch, "x86_64") {
        owned("x86_64")
    } else if str_eq(arch, "ppc64le") {
        owned("ppc64le")
    } else if str_eq(arch, "s390x") {
        owned("s390x")
    } else {
        owned(arch)
    }
}

/// Path of the QEMU user-mode emulator for images of the architecture `arch`.
pub fn qemu_binary_path(arch: &str) -> (r: String)
    ensures
        r@ == "/usr/bin/qemu-"@ + qemu_arch_of(arch@) + "-static"@,
{
    let mut r = owned("/usr/bin/qemu-");
    let q = get_qemu_arch(arch);
    r.append(q.as_str());
    r.append("-static");
    r
}

/// How a compatibility summary reads.
pub open spec fn compat_summary(host: Seq<char>, image: Seq<char>, needs: bool, available: bool) -> Seq<char> {
    if !needs {
        "Native execution: "@ + host + " host can run "@ + image + " containers"@
    } else if available {
        "Emulation required: "@ + host + " host running "@ + image + " containers (QEMU available)"@
    } else {
        "Cannot run: "@ + host + " host cannot run "@ + image + " containers (emulation not available)"@
    }
}

impl ArchitectureCompatibility {
    /// The compatibility of `host` with `image` images; `qemu_installed`
    /// tells whether the emulator for the image's architecture is installed,
    /// and only counts when emulation is needed.
    pub fn assess(host: ArchitectureInfo, image: ArchitectureInfo, qemu_installed: bool) -> (r: Self)
        ensures
            r.host == host,
            r.image == image,
            r.needs_emulation == !compatible(host@, image@),
            r.emulation_available == (r.needs_emulation && qemu_installed),
            views(r.warnings@) == warnings_for(r.needs_emulation, r.emulation_available),
    {
        let needs_emulation = host.needs_emulation(&image);
        let emulation_available = needs_emulation && qemu_installed;
        let warnings = generate_compatibility_warnings(needs_emulation, emulation_available);
        ArchitectureCompatibility { host, image, needs_emulation, emulation_available, warnings }
    }

    /// Whether the container can run: natively, or under available emulation.
    pub fn can_run(&self) -> (r: bool)
        ensures
            r == (!self.needs_emulation || self.emulation_available),
    {
        !self.needs_emulation || self.emulation_available
    }

    /// A sentence on how the host runs the image.
    pub fn summary(&self) -> (r: String)
        ensures
            r@ == compat_summary(
                self.host.arch@,
                self.image.arch@,
                self.needs_emulation,
                self.emulation_available,
            ),
    {
        let mut r = String::new();
        if !self.needs_emulation {
            r.append("Native execution: ");
            r.append(self.host.arch.as_str());
            r.append(" host can run ");
            r.append(self.image.arch.as_str());
            r.append(" containers");
        } else if self.emulation_available {
            r.append("Emulation required: ");
            r.append(self.host.arch.as_str());
            r.append(" host running ");
            r.append(self.image.arch.as_str());
            r.append(" containers (QEMU available)");
        } else {
            r.append("Cannot run: ");
            r.append(self.host.arch.as_str());
            r.append(" host cannot run ");
            r.append(self.image.arch.as_str());
            r.append(" containers (emulation not available)");
        }
        r
    }
}


/// Every architecture runs its own images.
pub proof fn law_compatible_reflexive(a: Seq<char>)
    ensures
        compatible(arch_info_of(a), arch_info_of(a)),
{
}
} // verus!
