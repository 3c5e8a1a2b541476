//! The firmware binaries of a build bundle, and the applications the runtime
//! carries.
use vstd::prelude::*;
use vstd::string::StrSliceExecFns;
use vstd::string::StringExecFns;

verus! {

/// Why a binary could not be found in the bundle.
#[derive(Debug, Clone, Copy, PartialEq, Eq, Structural)]
pub enum FirmwareBinariesError {
    /// No SoC manifest of the asked feature.
    SocManifestNotFound,
    /// No runtime of the asked feature.
    RuntimeNotFound,
    /// No test ROM of the asked firmware.
    TestRomNotFound,
}

/// The binaries of a build bundle; test binaries are kept with their file
/// names.
#[derive(Debug, Clone)]
pub struct FirmwareBinaries {
    pub caliptra_rom: Vec<u8>,
    pub caliptra_fw: Vec<u8>,
    pub mcu_rom: Vec<u8>,
    pub mcu_runtime: Vec<u8>,
    pub soc_manifest: Vec<u8>,
    pub test_roms: Vec<(String, Vec<u8>)>,
    pub test_soc_manifests: Vec<(String, Vec<u8>)>,
    pub test_runtimes: Vec<(String, Vec<u8>)>,
}

impl Default for FirmwareBinaries {
    fn default() -> (r: Self)
        ensures
            r.caliptra_rom@.len() == 0,
            r.caliptra_fw@.len() == 0,
            r.mcu_rom@.len() == 0,
            r.mcu_runtime@.len() == 0,
            r.soc_manifest@.len() == 0,
            r.test_roms@.len() == 0,
            r.test_soc_manifests@.len() == 0,
            r.test_runtimes@.len() == 0,
    {
        FirmwareBinaries {
            caliptra_rom: Vec::new(),
            caliptra_fw: Vec::new(),
            mcu_rom: Vec::new(),
            mcu_runtime: Vec::new(),
            soc_manifest: Vec::new(),
            test_roms: Vec::new(),
            test_soc_manifests: Vec::new(),
            test_runtimes: Vec::new(),
        }
    }
}

/// The data of the first entry at or after `i` that has the given name.
pub open spec fn named_entry_from(entries: Seq<(String, Vec<u8>)>, name: Seq<char>, i: int) -> Option<Seq<u8>>
    decreases entries.len() - i,
{
    if i < 0 || i >= entries.len() {
        None
    } else if entries[i].0@ == name {
        Some(entries[i].1@)
    } else {
        named_entry_from(entries, name, i + 1)
    }
}

/// The data of the first entry with the given name.
pub open spec fn named_entry(entries: Seq<(String, Vec<u8>)>, name: Seq<char>) -> Option<Seq<u8>> {
    named_entry_from(entries, name, 0)
}

/// A copy of the data of the first entry named `name`.
fn find_named(entries: &Vec<(String, Vec<u8>)>, name: &String) -> (r: Option<Vec<u8>>)
    ensures
        match named_entry(entries@, name@) {
            Some(d) => r matches Some(v) && v@ == d,
            None => r is None,
        },
{
    let mut i: usize = 0;
    while i < entries.len()
        invariant
            i <= entries@.len(),
            named_entry(entries@, name@) == named_entry_from(entries@, name@, i as int),
        decreases entries@.len() - i,
    {
        if entries[i].0 == *name {
            let data = &entries[i].1;
            let mut copy: Vec<u8> = Vec::new();
            let mut k: usize = 0;
            while k < data.len()
                invariant
                    k <= data@.len(),
                    copy@ == data@.take(k as int),
                decreases data@.len() - k,
            {
                copy.push(data[k]);
                assert(copy@ =~= data@.take(k + 1));
                k = k + 1;
            }
            assert(copy@ =~= data@);
            return Some(copy);
        }
        i = i + 1;
    }
    None
}

impl FirmwareBinaries {
    /// The test SoC manifest of a feature: the entry named
    /// `mcu-test-soc-manifest-<feature>.bin`.
    pub fn test_soc_manifest(&self, feature: &str) -> (r: Result<Vec<u8>, FirmwareBinariesError>)
        ensures
            match named_entry(self.test_soc_manifests@, "mcu-test-soc-manifest-"@ + feature@ + ".bin"@) {
                Some(d) => r matches Ok(v) && v@ == d,
                None => r == Err::<Vec<u8>, FirmwareBinariesError>(FirmwareBinariesError::SocManifestNotFound),
            },
    {
        let mut expected = "mcu-test-soc-manifest-".to_owned();
        expected.append(feature);
        expected.append(".bin");
        match find_named(&self.test_soc_manifests, &expected) {
            Some(v) => Ok(v),
            None => Err(FirmwareBinariesError::SocManifestNotFound),
        }
    }

    /// The test runtime of a feature: the entry named
    /// `mcu-test-runtime-<feature>.bin`.
    pub fn test_runtime(&self, feature: &str) -> (r: Result<Vec<u8>, FirmwareBinariesError>)
        ensures
            match named_entry(self.test_runtimes@, "mcu-test-runtime-"@ + feature@ + ".bin"@) {
                Some(d) => r matches Ok(v) && v@ == d,
                None => r == Err::<Vec<u8>, FirmwareBinariesError>(FirmwareBinariesError::RuntimeNotFound),
            },
    {
        let mut expected = "mcu-test-runtime-".to_owned();
        expected.append(feature);
        expected.append(".bin");
        match find_named(&self.test_runtimes, &expected) {
            Some(v) => Ok(v),
            None => Err(FirmwareBinariesError::RuntimeNotFound),
        }
    }
}

/// `p` occurs in `s` at position `i`.
pub open spec fn occurs_at(s: Seq<char>, p: Seq<char>, i: int) -> bool {
    0 <= i && i + p.len() <= s.len() && s.subrange(i, i + p.len()) == p
}

/// `p` occurs somewhere in `s`.
pub open spec fn has_infix(s: Seq<char>, p: Seq<char>) -> bool {
    exists|i: int| occurs_at(s, p, i)
}

/// The characters of `p` stand in `s` at position `i`.
fn matches_at(s: &str, p: &str, i: usize) -> (r: bool)
    requires
        i + p@.len() <= s@.len(),
    ensures
        r == occurs_at(s@, p@, i as int),
{
    let n = p.unicode_len();
    let sn = s.unicode_len();
    let mut k: usize = 0;
    while k < n
        invariant
            n == p@.len(),
            sn == s@.len(),
            k <= n,
            i + n <= s@.len(),
            s@.subrange(i as int, i + k) == p@.take(k as int),
        decreases n - k,
    {
        if s.get_char(i + k) != p.get_char(k) {
            assert(s@.subrange(i as int, i + n)[k as int] != p@[k as int]);
            return false;
        }
        assert(s@.subrange(i as int, i + k + 1) =~= p@.take(k + 1));
        k = k + 1;
    }
    assert(p@.take(n as int) =~= p@);
    true
}

/// `p` occurs in `s`.
fn str_contains(s: &str, p: &str) -> (r: bool)
    ensures
        r == has_infix(s@, p@),
{
    let n = s.unicode_len();
    let m = p.unicode_len();
    if m > n {
        return false;
    }
    if m == 0 {
        assert(s@.subrange(0, 0) =~= p@);
        assert(occurs_at(s@, p@, 0));
        return true;
    }
    let mut i: usize = 0;
    while i <= n - m
        invariant
            n == s@.len(),
            m == p@.len(),
            0 < m <= n,
            i <= n - m + 1,
            forall|j: int| 0 <= j < i ==> !#[trigger] occurs_at(s@, p@, j),
        decreases n - m + 1 - i,
    {
        if matches_at(s, p, i) {
            return true;
        }
        i = i + 1;
    }
    false
}

/// `s` and `p` are the same string.
pub(crate) fn str_equals(s: &str, p: &str) -> (r: bool)
    ensures
        r == (s@ == p@),
{
    if s.unicode_len() != p.unicode_len() {
        return false;
    }
    let r = matches_at(s, p, 0);
    assert(s@.subrange(0, p@.len() as int) =~= s@);
    r
}

/// What a file of a firmware bundle is, by its name.
#[derive(Debug, Clone, Copy, PartialEq, Eq, Structural)]
pub enum BundleFile {
    CaliptraRom,
    CaliptraFw,
    McuRom,
    McuRuntime,
    SocManifest,
    TestSocManifest,
    TestRuntime,
    TestRom,
    /// A file that the bundle reader skips.
    Other,
}

/// The kind of a bundle file: the five fixed names, then the test binaries,
/// recognized by a part of their name.
pub open spec fn bundle_file_kind(name: Seq<char>) -> BundleFile {
    if name == "caliptra_rom.bin"@ {
        BundleFile::CaliptraRom
    } else if name == "caliptra_fw.bin"@ {
        BundleFile::CaliptraFw
    } else if name == "mcu_rom.bin"@ {
        BundleFile::McuRom
    } else if name == "mcu_runtime.bin"@ {
        BundleFile::McuRuntime
    } else if name == "soc_manifest.bin"@ {
        BundleFile::SocManifest
    } else if has_infix(name, "mcu-test-soc-manifest"@) {
        BundleFile::TestSocManifest
    } else if has_infix(name, "mcu-test-runtime"@) {
        BundleFile::TestRuntime
    } else if has_infix(name, "mcu-test-rom"@) {
        BundleFile::TestRom
    } else {
        BundleFile::Other
    }
}

/// The kind of a bundle file, by its name.
pub fn classify_bundle_file(name: &str) -> (r: BundleFile)
    ensures
        r == bundle_file_kind(name@),
{
    if str_equals(name, "caliptra_rom.bin") {
        BundleFile::CaliptraRom
    } else if str_equals(name, "caliptra_fw.bin") {
        BundleFile::CaliptraFw
    } else if str_equals(name, "mcu_rom.bin") {
        BundleFile::McuRom
    } else if str_equals(name, "mcu_runtime.bin") {
        BundleFile::McuRuntime
    } else if str_equals(name, "soc_manifest.bin") {
        BundleFile::SocManifest
    } else if str_contains(name, "mcu-test-soc-manifest") {
        BundleFile::TestSocManifest
    } else if str_contains(name, "mcu-test-runtime") {
        BundleFile::TestRuntime
    } else if str_contains(name, "mcu-test-rom") {
        BundleFile::TestRom
    } else {
        BundleFile::Other
    }
}

/// The names and contents of named entries.
pub open spec fn entry_views(entries: Seq<(String, Vec<u8>)>) -> Seq<(Seq<char>, Seq<u8>)> {
    entries.map_values(|e: (String, Vec<u8>)| (e.0@, e.1@))
}

/// The contents of a list of named entries after a file of the kind `kind`
/// is added to the list of kind `list`.
pub open spec fn entries_after(
    old_entries: Seq<(String, Vec<u8>)>,
    kind: BundleFile,
    list: BundleFile,
    name: Seq<char>,
    data: Seq<u8>,
) -> Seq<(Seq<char>, Seq<u8>)> {
    if kind == list {
        entry_views(old_entries).push((name, data))
    } else {
        entry_views(old_entries)
    }
}

impl FirmwareBinaries {
    /// Takes in one file of a bundle: a fixed binary replaces the one held, a
    /// test binary is appended to its list with its name, any other file is
    /// skipped.
    pub fn add_bundle_file(&mut self, name: &str, data: Vec<u8>)
        ensures
            ({
                let kind = bundle_file_kind(name@);
                &&& final(self).caliptra_rom@ == (if kind == BundleFile::CaliptraRom { data@ } else { old(self).caliptra_rom@ })
                &&& final(self).caliptra_fw@ == (if kind == BundleFile::CaliptraFw { data@ } else { old(self).caliptra_fw@ })
                &&& final(self).mcu_rom@ == (if kind == BundleFile::McuRom { data@ } else { old(self).mcu_rom@ })
                &&& final(self).mcu_runtime@ == (if kind == BundleFile::McuRuntime { data@ } else { old(self).mcu_runtime@ })
                &&& final(self).soc_manifest@ == (if kind == BundleFile::SocManifest { data@ } else { old(self).soc_manifest@ })
                &&& entry_views(final(self).test_soc_manifests@) == entries_after(
                    old(self).test_soc_manifests@, kind, BundleFile::TestSocManifest, name@, data@)
                &&& entry_views(final(self).test_runtimes@) == entries_after(
                    old(self).test_runtimes@, kind, BundleFile::TestRuntime, name@, data@)
                &&& entry_views(final(self).test_roms@) == entries_after(
                    old(self).test_roms@, kind, BundleFile::TestRom, name@, data@)
            }),
    {
        let kind = classify_bundle_file(name);
        let ghost d = data@;
        match kind {
            BundleFile::CaliptraRom => self.caliptra_rom = data,
            BundleFile::CaliptraFw => self.caliptra_fw = data,
            BundleFile::McuRom => self.mcu_rom = data,
            BundleFile::McuRuntime => self.mcu_runtime = data,
            BundleFile::SocManifest => self.soc_manifest = data,
            BundleFile::TestSocManifest => {
                let ghost before = self.test_soc_manifests@;
                self.test_soc_manifests.push((name.to_owned(), data));
                assert(entry_views(self.test_soc_manifests@) =~= entry_views(before).push((name@, d)));
            },
            BundleFile::TestRuntime => {
                let ghost before = self.test_runtimes@;
                self.test_runtimes.push((name.to_owned(), data));
                assert(entry_views(self.test_runtimes@) =~= entry_views(before).push((name@, d)));
            },
            BundleFile::TestRom => {
                let ghost before = self.test_roms@;
                self.test_roms.push((name.to_owned(), data));
                assert(entry_views(self.test_roms@) =~= entry_views(before).push((name@, d)));
            },
            BundleFile::Other => {},
        }
    }

    /// The test ROM of a firmware: the entry named
    /// `mcu-test-rom-<crate name>-<binary name>.bin`.
    pub fn test_rom(&self, crate_name: &str, bin_name: &str) -> (r: Result<Vec<u8>, FirmwareBinariesError>)
        ensures
            match named_entry(self.test_roms@, "mcu-test-rom-"@ + crate_name@ + "-"@ + bin_name@ + ".bin"@) {
                Some(d) => r matches Ok(v) && v@ == d,
                None => r == Err::<Vec<u8>, FirmwareBinariesError>(FirmwareBinariesError::TestRomNotFound),
            },
    {
        let mut expected = "mcu-test-rom-".to_owned();
        expected.append(crate_name);
        expected.append("-");
        expected.append(bin_name);
        expected.append(".bin");
        match find_named(&self.test_roms, &expected) {
            Some(v) => Ok(v),
            None => Err(FirmwareBinariesError::TestRomNotFound),
        }
    }
}

/// The pieces of `s` between the occurrences of `c` (one piece more than
/// there are occurrences; pieces may be empty).
pub open spec fn split_on(s: Seq<char>, c: char) -> Seq<Seq<char>>
    decreases s.len(),
{
    if s.len() == 0 {
        seq![Seq::empty()]
    } else {
        let rest = split_on(s.drop_last(), c);
        if s.last() == c {
            rest.push(Seq::empty())
        } else {
            rest.update(rest.len() - 1, rest.last().push(s.last()))
        }
    }
}

proof fn lemma_split_on_nonempty(s: Seq<char>, c: char)
    ensures
        split_on(s, c).len() >= 1,
    decreases s.len(),
{
    if s.len() > 0 {
        lemma_split_on_nonempty(s.drop_last(), c);
    }
}

/// The pieces of `s` between its commas (`str::split(',')`).
fn split_commas(s: &str) -> (r: Vec<&str>)
    ensures
        r@.map_values(|p: &str| p@) == split_on(s@, ','),
{
    let n = s.unicode_len();
    let mut pieces: Vec<&str> = Vec::new();
    let mut start: usize = 0;
    let mut i: usize = 0;
    assert(s@.take(0) =~= Seq::<char>::empty());
    assert(pieces@.map_values(|p: &str| p@).push(s@.subrange(0, 0)) =~= seq![Seq::<char>::empty()]);
    while i < n
        invariant
            n == s@.len(),
            start <= i <= n,
            pieces@.map_values(|p: &str| p@).push(s@.subrange(start as int, i as int)) == split_on(
                s@.take(i as int),
                ',',
            ),
        decreases n - i,
    {
        proof {
            lemma_split_on_nonempty(s@.take(i as int), ',');
            assert(s@.take(i + 1).drop_last() =~= s@.take(i as int));
        }
        let ch = s.get_char(i);
        if ch == ',' {
            let piece = s.substring_char(start, i);
            let ghost before = pieces@;
            pieces.push(piece);
            assert(pieces@.map_values(|p: &str| p@) =~= before.map_values(|p: &str| p@).push(
                s@.subrange(start as int, i as int),
            ));
            assert(s@.subrange(i + 1, i + 1) =~= Seq::<char>::empty());
            start = i + 1;
        } else {
            assert(s@.subrange(start as int, i + 1) =~= s@.subrange(start as int, i as int).push(ch));
        }
        i = i + 1;
    }
    let last = s.substring_char(start, n);
    let ghost before = pieces@;
    pieces.push(last);
    assert(pieces@.map_values(|p: &str| p@) =~= before.map_values(|p: &str| p@).push(s@.subrange(start as int, n as int)));
    assert(s@.take(n as int) =~= s@);
    pieces
}

/// `s` without every `0x` at its start (`str::trim_start_matches("0x")`).
pub open spec fn strip_hex_prefixes(s: Seq<char>) -> Seq<char>
    decreases s.len(),
{
    if s.len() >= 2 && s[0] == '0' && s[1] == 'x' {
        strip_hex_prefixes(s.subrange(2, s.len() as int))
    } else {
        s
    }
}

/// `s` without every `0x` at its start.
fn trim_hex_prefixes(s: &str) -> (r: &str)
    ensures
        r@ == strip_hex_prefixes(s@),
{
    let n = s.unicode_len();
    let mut i: usize = 0;
    assert(s@.subrange(0, n as int) =~= s@);
    while n - i >= 2 && s.get_char(i) == '0' && s.get_char(i + 1) == 'x'
        invariant
            n == s@.len(),
            i <= n,
            strip_hex_prefixes(s@) == strip_hex_prefixes(s@.subrange(i as int, n as int)),
        decreases n - i,
    {
        assert(s@.subrange(i as int, n as int).subrange(2, n - i) =~= s@.subrange(i + 2, n as int));
        i = i + 2;
    }
    s.substring_char(i, n)
}

/// The value of a digit in a radix (up to 36): `0`-`9`, then letters of
/// either case.
pub open spec fn digit_value(c: char, radix: nat) -> Option<nat> {
    let v: int = if '0' <= c && c <= '9' {
        c as int - '0' as int
    } else if 'a' <= c && c <= 'z' {
        c as int - 'a' as int + 10
    } else if 'A' <= c && c <= 'Z' {
        c as int - 'A' as int + 10
    } else {
        radix as int
    };
    if v < radix {
        Some(v as nat)
    } else {
        None
    }
}

/// The value of a string of digits (0 for no digit), if every character is
/// a digit.
pub open spec fn digits_value(s: Seq<char>, radix: nat) -> Option<nat>
    decreases s.len(),
{
    if s.len() == 0 {
        Some(0)
    } else {
        match (digits_value(s.drop_last(), radix), digit_value(s.last(), radix)) {
            (Some(v), Some(d)) => Some(v * radix + d),
            _ => None,
        }
    }
}

/// An unsigned integer in text: an optional `+`, then at least one digit,
/// with a value up to `max`.
pub open spec fn unsigned_value(s: Seq<char>, radix: nat, max: nat) -> Option<nat> {
    let body = if s.len() > 0 && s[0] == '+' {
        s.drop_first()
    } else {
        s
    };
    if body.len() == 0 {
        None
    } else {
        match digits_value(body, radix) {
            Some(v) => if v <= max {
                Some(v)
            } else {
                None
            },
            None => None,
        }
    }
}

/// `u64::from_str_radix(s, 16)`, which accepts an optional `+` followed by
/// hexadecimal digits of either case whose value fits in 64 bits, and
/// fails on anything else.
#[verifier::external_body]
fn parse_hex_u64(s: &str) -> (r: Option<u64>)
    ensures
        match unsigned_value(s@, 16, u64::MAX as nat) {
            Some(v) => r == Some(v as u64),
            None => r is None,
        },
{
    u64::from_str_radix(s, 16).ok()
}

/// `s.parse::<u32>()`, which accepts an optional `+` followed by decimal
/// digits whose value fits in 32 bits, and fails on anything else.
#[verifier::external_body]
fn parse_dec_u32(s: &str) -> (r: Option<u32>)
    ensures
        match unsigned_value(s@, 10, u32::MAX as nat) {
            Some(v) => r == Some(v as u32),
            None => r is None,
        },
{
    s.parse::<u32>().ok()
}

/// The configuration of a SoC image: the path of its file, its load and
/// staging addresses, its identifier and its exec bit.
#[derive(Debug, Clone)]
pub struct ImageCfg {
    pub path: String,
    pub load_addr: u64,
    pub staging_addr: u64,
    pub image_id: u32,
    pub exec_bit: u32,
}

impl Default for ImageCfg {
    fn default() -> (r: Self)
        ensures
            r.path@.len() == 0,
            r.load_addr == 0,
            r.staging_addr == 0,
            r.image_id == 0,
            r.exec_bit == 0,
    {
        ImageCfg { path: String::new(), load_addr: 0, staging_addr: 0, image_id: 0, exec_bit: 0 }
    }
}

/// Why an image configuration text was refused.
#[derive(Debug, Clone, Copy, PartialEq, Eq, Structural)]
pub enum ImageCfgError {
    /// The text does not have exactly five comma-separated fields.
    FieldCount,
    /// The load address is not a hexadecimal `u64`.
    LoadAddr,
    /// The staging address is not a hexadecimal `u64`.
    StagingAddr,
    /// The image identifier is not a decimal `u32`.
    ImageId,
    /// The exec bit is not a decimal `u32`.
    ExecBit,
}

/// A hexadecimal address field: any `0x` prefixes are dropped first.
pub open spec fn address_field(s: Seq<char>) -> Option<nat> {
    unsigned_value(strip_hex_prefixes(s), 16, u64::MAX as nat)
}

/// What parsing `s` gives: the first field that fails gives the error;
/// otherwise the configuration of the five fields.
pub open spec fn image_cfg_parsed(s: Seq<char>, r: Result<ImageCfg, ImageCfgError>) -> bool {
    let f = split_on(s, ',');
    if f.len() != 5 {
        r == Err::<ImageCfg, ImageCfgError>(ImageCfgError::FieldCount)
    } else if address_field(f[1]) is None {
        r == Err::<ImageCfg, ImageCfgError>(ImageCfgError::LoadAddr)
    } else if address_field(f[2]) is None {
        r == Err::<ImageCfg, ImageCfgError>(ImageCfgError::StagingAddr)
    } else if unsigned_value(f[3], 10, u32::MAX as nat) is None {
        r == Err::<ImageCfg, ImageCfgError>(ImageCfgError::ImageId)
    } else if unsigned_value(f[4], 10, u32::MAX as nat) is None {
        r == Err::<ImageCfg, ImageCfgError>(ImageCfgError::ExecBit)
    } else {
        r matches Ok(cfg) && cfg.path@ == f[0]
            && cfg.load_addr == address_field(f[1])->0
            && cfg.staging_addr == address_field(f[2])->0
            && cfg.image_id == unsigned_value(f[3], 10, u32::MAX as nat)->0
            && cfg.exec_bit == unsigned_value(f[4], 10, u32::MAX as nat)->0
    }
}

impl ImageCfg {
    /// Parses `<path>,<load_addr>,<staging_addr>,<image_id>,<exec_bit>`: the
    /// addresses in hexadecimal (with or without `0x`), the identifier and
    /// the exec bit in decimal. The first field that fails gives the error.
    pub fn parse(s: &str) -> (r: Result<ImageCfg, ImageCfgError>)
        ensures
            image_cfg_parsed(s@, r),
    {
        let parts = split_commas(s);
        let ghost f = split_on(s@, ',');
        if parts.len() != 5 {
            return Err(ImageCfgError::FieldCount);
        }
        assert(parts@[1]@ == f[1] && parts@[2]@ == f[2] && parts@[3]@ == f[3] && parts@[4]@ == f[4]
            && parts@[0]@ == f[0]);
        let load_addr = match parse_hex_u64(trim_hex_prefixes(parts[1])) {
            Some(v) => v,
            None => return Err(ImageCfgError::LoadAddr),
        };
        let staging_addr = match parse_hex_u64(trim_hex_prefixes(parts[2])) {
            Some(v) => v,
            None => return Err(ImageCfgError::StagingAddr),
        };
        let image_id = match parse_dec_u32(parts[3]) {
            Some(v) => v,
            None => return Err(ImageCfgError::ImageId),
        };
        let exec_bit = match parse_dec_u32(parts[4]) {
            Some(v) => v,
            None => return Err(ImageCfgError::ExecBit),
        };
        Ok(ImageCfg { path: parts[0].to_owned(), load_addr, staging_addr, image_id, exec_bit })
    }
}

impl core::str::FromStr for ImageCfg {
    type Err = ImageCfgError;

    fn from_str(s: &str) -> (r: Result<ImageCfg, ImageCfgError>)
        ensures
            image_cfg_parsed(s@, r),
    {
        ImageCfg::parse(s)
    }
}

/// Why a build bundle cannot be planned.
#[derive(Debug, Clone, Copy, PartialEq, Eq, Structural)]
pub enum BuildPlanError {
    /// Separate runtimes are asked for without runtime features.
    NoRuntimeFeatures,
    /// The platform is neither `emulator` nor `fpga`.
    UnknownPlatform,
}

/// The platforms a bundle is built for.
#[derive(Debug, Clone, Copy, PartialEq, Eq, Structural)]
pub enum Platform {
    Emulator,
    Fpga,
}

/// The platform a name selects (`emulator` when none is given).
pub open spec fn spec_platform(name: Option<Seq<char>>) -> Result<Platform, BuildPlanError> {
    match name {
        None => Ok(Platform::Emulator),
        Some(n) => if n == "emulator"@ {
            Ok(Platform::Emulator)
        } else if n == "fpga"@ {
            Ok(Platform::Fpga)
        } else {
            Err(BuildPlanError::UnknownPlatform)
        },
    }
}

/// The platform a name selects (`emulator` when none is given).
pub fn platform_of(name: Option<&str>) -> (r: Result<Platform, BuildPlanError>)
    ensures
        r == spec_platform(
            match name {
                Some(n) => Some(n@),
                None => None,
            },
        ),
{
    match name {
        None => Ok(Platform::Emulator),
        Some(n) => if str_equals(n, "emulator") {
            Ok(Platform::Emulator)
        } else if str_equals(n, "fpga") {
            Ok(Platform::Fpga)
        } else {
            Err(BuildPlanError::UnknownPlatform)
        },
    }
}

/// The runtime features asked for: the comma-separated pieces of a
/// non-empty list, none otherwise.
pub open spec fn feature_list(features: Option<Seq<char>>) -> Seq<Seq<char>> {
    match features {
        Some(f) => if f.len() > 0 {
            split_on(f, ',')
        } else {
            Seq::empty()
        },
        None => Seq::empty(),
    }
}

/// The texts of a list of strings.
pub open spec fn str_views(v: Seq<&str>) -> Seq<Seq<char>> {
    v.map_values(|p: &str| p@)
}

/// The runtimes of a bundle: one base runtime with every feature, or, for
/// separate runtimes, a base runtime without features and one runtime per
/// feature (which must then be given). Returns the features of the base
/// runtime and the features built separately.
pub fn runtime_feature_plan<'a>(separate_runtimes: bool, runtime_features: Option<&'a str>) -> (r: Result<(Vec<&'a str>, Vec<&'a str>), BuildPlanError>)
    ensures
        ({
            let fs = feature_list(
                match runtime_features {
                    Some(f) => Some(f@),
                    None => None,
                },
            );
            let given = match runtime_features {
                Some(f) => f@.len() > 0,
                None => false,
            };
            if separate_runtimes && !given {
                r == Err::<(Vec<&'a str>, Vec<&'a str>), BuildPlanError>(BuildPlanError::NoRuntimeFeatures)
            } else {
                r matches Ok((base, sep)) && str_views(base@) == (if separate_runtimes {
                    Seq::empty()
                } else {
                    fs
                }) && str_views(sep@) == (if separate_runtimes {
                    fs
                } else {
                    Seq::empty()
                })
            }
        }),
{
    let features: Vec<&'a str> = match runtime_features {
        Some(f) => if f.unicode_len() > 0 {
            split_commas(f)
        } else {
            Vec::new()
        },
        None => Vec::new(),
    };
    if separate_runtimes && features.len() == 0 {
        proof {
            if let Some(f) = runtime_features {
                if f@.len() > 0 {
                    lemma_split_on_nonempty(f@, ',');
                }
            }
        }
        return Err(BuildPlanError::NoRuntimeFeatures);
    }
    proof {
        if let Some(f) = runtime_features {
            if f@.len() > 0 {
                lemma_split_on_nonempty(f@, ',');
            }
        }
    }
    let none: Vec<&'a str> = Vec::new();
    assert(str_views(none@) =~= Seq::<Seq<char>>::empty());
    if separate_runtimes {
        Ok((none, features))
    } else {
        Ok((features, none))
    }
}

/// An application built into the runtime: its name, the (driver, command)
/// pairs it may use besides the default ones, and the RAM it needs.
#[derive(Debug, Clone)]
pub struct App {
    pub name: &'static str,
    pub permissions: Vec<(u32, u32)>,
    pub minimum_ram: u32,
}

} // verus!
