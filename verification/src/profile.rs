use vstd::prelude::*;

use crate::metrics::label_of;

use crate::config::{clamp_level, CompileMode, Duration, Intensity, WorkloadKind};
use crate::text::{
    chars_of, join2, lemma_text_lt_total, lemma_text_lt_transitive, ascii_lower_char, ascii_text, lowercased, owned, same_text,
    text_less, text_lt, to_lowercase,
};
use vstd::string::StringExecFns;

verus! {

/// Duration of a profile that names none.
pub const DEFAULT_DURATION_SECS: u64 = 30;
/// Intensity of a profile that names none.
pub const DEFAULT_INTENSITY: u8 = 5;
/// Generated module count of a profile that names none.
pub const DEFAULT_COMPILE_MODULES: usize = 50;

/// The I/O directory name of a profile that names none.
pub open spec fn default_io_dir_text() -> Seq<char> {
    "libstress-io"@
}

/// One profile of `libstress.toml`.
///
/// `max_disk_gb_bits` holds the IEEE-754 bit pattern of the optional `max_disk_gb`
/// number; the library only carries it from one profile to another.
#[derive(Debug)]
pub struct ProfileSettings {
    pub duration_secs: u64,
    pub intensity: u8,
    pub threads: usize,
    pub workloads: Vec<String>,
    pub memory: Option<String>,
    pub memory_cap_override: bool,
    pub io_dir: String,
    pub compile_modules: usize,
    pub compile_mode: Option<String>,
    pub compile_dir: Option<String>,
    pub ecs: bool,
    pub max_disk_gb_bits: Option<u64>,
    pub net_port: Option<u16>,
}

/// The content of a `ProfileSettings`, with every string taken by its characters.
pub struct ProfileView {
    pub duration_secs: u64,
    pub intensity: u8,
    pub threads: usize,
    pub workloads: Seq<Seq<char>>,
    pub memory: Option<Seq<char>>,
    pub memory_cap_override: bool,
    pub io_dir: Seq<char>,
    pub compile_modules: usize,
    pub compile_mode: Option<Seq<char>>,
    pub compile_dir: Option<Seq<char>>,
    pub ecs: bool,
    pub max_disk_gb_bits: Option<u64>,
    pub net_port: Option<u16>,
}

/// The characters of an optional string.
pub open spec fn text_opt(o: Option<String>) -> Option<Seq<char>> {
    match o {
        Some(s) => Some(s@),
        None => None,
    }
}

/// The characters of each string of a sequence.
pub open spec fn texts(v: Seq<String>) -> Seq<Seq<char>> {
    v.map_values(|s: String| s@)
}

impl View for ProfileSettings {
    type V = ProfileView;

    open spec fn view(&self) -> ProfileView {
        ProfileView {
            duration_secs: self.duration_secs,
            intensity: self.intensity,
            threads: self.threads,
            workloads: texts(self.workloads@),
            memory: text_opt(self.memory),
            memory_cap_override: self.memory_cap_override,
            io_dir: self.io_dir@,
            compile_modules: self.compile_modules,
            compile_mode: text_opt(self.compile_mode),
            compile_dir: text_opt(self.compile_dir),
            ecs: self.ecs,
            max_disk_gb_bits: self.max_disk_gb_bits,
            net_port: self.net_port,
        }
    }
}

/// The settings of a profile that names nothing.
pub open spec fn default_profile() -> ProfileView {
    ProfileView {
        duration_secs: DEFAULT_DURATION_SECS,
        intensity: DEFAULT_INTENSITY,
        threads: 0,
        workloads: Seq::empty(),
        memory: None,
        memory_cap_override: false,
        io_dir: default_io_dir_text(),
        compile_modules: DEFAULT_COMPILE_MODULES,
        compile_mode: None,
        compile_dir: None,
        ecs: false,
        max_disk_gb_bits: None,
        net_port: None,
    }
}

/// `overlay` laid over `base`: duration, intensity and module count always come from
/// the overlay; other fields only where the overlay sets them (a non-zero thread count,
/// a non-empty workload list, a present option, a `true` flag, an I/O directory other
/// than `libstress-io`).
pub open spec fn merged(base: ProfileView, overlay: ProfileView) -> ProfileView {
    ProfileView {
        duration_secs: overlay.duration_secs,
        intensity: overlay.intensity,
        threads: if overlay.threads != 0 { overlay.threads } else { base.threads },
        workloads: if overlay.workloads.len() > 0 { overlay.workloads } else { base.workloads },
        memory: if overlay.memory is Some { overlay.memory } else { base.memory },
        memory_cap_override: base.memory_cap_override || overlay.memory_cap_override,
        io_dir: if overlay.io_dir != default_io_dir_text() { overlay.io_dir } else { base.io_dir },
        compile_modules: overlay.compile_modules,
        compile_mode: if overlay.compile_mode is Some { overlay.compile_mode } else { base.compile_mode },
        compile_dir: if overlay.compile_dir is Some { overlay.compile_dir } else { base.compile_dir },
        ecs: base.ecs || overlay.ecs,
        max_disk_gb_bits: if overlay.max_disk_gb_bits is Some { overlay.max_disk_gb_bits } else { base.max_disk_gb_bits },
        net_port: if overlay.net_port is Some { overlay.net_port } else { base.net_port },
    }
}

/// The workload a (lower-case) name in a profile stands for.
pub open spec fn workload_named(name: Seq<char>) -> Option<WorkloadKind> {
    if name == "cpu"@ {
        Some(WorkloadKind::Cpu)
    } else if name == "mem"@ || name == "memory"@ {
        Some(WorkloadKind::Memory)
    } else if name == "io"@ || name == "disk"@ {
        Some(WorkloadKind::Io)
    } else if name == "compile"@ || name == "compiler"@ {
        Some(WorkloadKind::Compile)
    } else if name == "gpu"@ {
        Some(WorkloadKind::Gpu)
    } else if name == "net"@ || name == "network"@ {
        Some(WorkloadKind::Net)
    } else if name == "sched"@ || name == "threads"@ {
        Some(WorkloadKind::Sched)
    } else if name == "all"@ {
        Some(WorkloadKind::All)
    } else {
        None
    }
}

/// The workloads named in `names`, in order, each name lower-cased first;
/// unknown names are skipped.
pub open spec fn named_workloads(names: Seq<Seq<char>>) -> Seq<WorkloadKind>
    decreases names.len(),
{
    if names.len() == 0 {
        Seq::empty()
    } else {
        let rest = named_workloads(names.drop_last());
        match workload_named(lowercased(names.last())) {
            Some(k) => rest.push(k),
            None => rest,
        }
    }
}

/// The workloads of a profile: `cpu`, `mem`, `io` when it lists none.
pub open spec fn profile_workloads(names: Seq<Seq<char>>) -> Seq<WorkloadKind> {
    if names.len() == 0 {
        seq![WorkloadKind::Cpu, WorkloadKind::Memory, WorkloadKind::Io]
    } else {
        named_workloads(names)
    }
}

/// The compile mode a (lower-case) name stands for; anything unknown builds in release.
pub open spec fn compile_mode_named(name: Seq<char>) -> CompileMode {
    if name == "check"@ {
        CompileMode::Check
    } else if name == "incremental"@ {
        CompileMode::Incremental
    } else {
        CompileMode::BuildRelease
    }
}

/// The compile mode of a profile (`build-release` when it names none), lower-cased first.
pub open spec fn profile_compile_mode(mode: Option<Seq<char>>) -> CompileMode {
    compile_mode_named(
        lowercased(
            match mode {
                Some(m) => m,
                None => "build-release"@,
            },
        ),
    )
}

/// Copy of an optional string.
pub fn clone_text_opt(o: &Option<String>) -> (r: Option<String>)
    ensures
        text_opt(r) == text_opt(*o),
{
    match o {
        Some(s) => Some(s.clone()),
        None => None,
    }
}

/// Copy of a list of strings.
pub fn clone_texts(v: &Vec<String>) -> (r: Vec<String>)
    ensures
        texts(r@) == texts(v@),
{
    let mut r: Vec<String> = Vec::new();
    let mut i: usize = 0;
    while i < v.len()
        invariant
            i <= v.len(),
            r.len() == i,
            forall|j: int| 0 <= j < i ==> #[trigger] r@[j]@ == v@[j]@,
        decreases v.len() - i,
    {
        r.push(v[i].clone());
        i = i + 1;
    }
    assert(texts(r@) =~= texts(v@));
    r
}

fn workload_from_lowercase(name: &str) -> (r: Option<WorkloadKind>)
    ensures
        r == workload_named(name@),
{
    if same_text(name, "cpu") {
        Some(WorkloadKind::Cpu)
    } else if same_text(name, "mem") || same_text(name, "memory") {
        Some(WorkloadKind::Memory)
    } else if same_text(name, "io") || same_text(name, "disk") {
        Some(WorkloadKind::Io)
    } else if same_text(name, "compile") || same_text(name, "compiler") {
        Some(WorkloadKind::Compile)
    } else if same_text(name, "gpu") {
        Some(WorkloadKind::Gpu)
    } else if same_text(name, "net") || same_text(name, "network") {
        Some(WorkloadKind::Net)
    } else if same_text(name, "sched") || same_text(name, "threads") {
        Some(WorkloadKind::Sched)
    } else if same_text(name, "all") {
        Some(WorkloadKind::All)
    } else {
        None
    }
}

impl Clone for ProfileSettings {
    fn clone(&self) -> (r: Self)
        ensures
            r@ == self@,
    {
        ProfileSettings {
            duration_secs: self.duration_secs,
            intensity: self.intensity,
            threads: self.threads,
            workloads: clone_texts(&self.workloads),
            memory: clone_text_opt(&self.memory),
            memory_cap_override: self.memory_cap_override,
            io_dir: self.io_dir.clone(),
            compile_modules: self.compile_modules,
            compile_mode: clone_text_opt(&self.compile_mode),
            compile_dir: clone_text_opt(&self.compile_dir),
            ecs: self.ecs,
            max_disk_gb_bits: self.max_disk_gb_bits,
            net_port: self.net_port,
        }
    }
}

impl Default for ProfileSettings {
    fn default() -> (r: Self)
        ensures
            r@ == default_profile(),
    {
        let workloads: Vec<String> = Vec::new();
        assert(texts(workloads@) =~= Seq::empty());
        ProfileSettings {
            duration_secs: DEFAULT_DURATION_SECS,
            intensity: DEFAULT_INTENSITY,
            threads: 0,
            workloads,
            memory: None,
            memory_cap_override: false,
            io_dir: owned("libstress-io"),
            compile_modules: DEFAULT_COMPILE_MODULES,
            compile_mode: None,
            compile_dir: None,
            ecs: false,
            max_disk_gb_bits: None,
            net_port: None,
        }
    }
}

impl ProfileSettings {
    /// The run length of the profile.
    pub fn duration(&self) -> (r: Duration)
        ensures
            r.secs == self.duration_secs,
            r.nanos == 0,
    {
        Duration::from_secs(self.duration_secs)
    }

    /// The profile's intensity, clamped into `1..=10`.
    pub fn intensity(&self) -> (r: Intensity)
        ensures
            r.0 == clamp_level(self.intensity),
    {
        Intensity::new(self.intensity)
    }

    /// The workloads the profile names (see `profile_workloads`).
    pub fn parse_workloads(&self) -> (r: Vec<WorkloadKind>)
        ensures
            r@ == profile_workloads(texts(self.workloads@)),
    {
        let mut r: Vec<WorkloadKind> = Vec::new();
        if self.workloads.len() == 0 {
            r.push(WorkloadKind::Cpu);
            r.push(WorkloadKind::Memory);
            r.push(WorkloadKind::Io);
            return r;
        }
        let ghost names = texts(self.workloads@);
        let mut i: usize = 0;
        while i < self.workloads.len()
            invariant
                i <= self.workloads.len(),
                names == texts(self.workloads@),
                r@ == named_workloads(names.take(i as int)),
            decreases self.workloads.len() - i,
        {
            let lower = to_lowercase(self.workloads[i].as_str());
            let k = workload_from_lowercase(lower.as_str());
            assert(names.take(i + 1).drop_last() =~= names.take(i as int));
            match k {
                Some(kind) => r.push(kind),
                None => {},
            }
            i = i + 1;
        }
        assert(names.take(names.len() as int) =~= names);
        r
    }

    /// The compile mode the profile names (see `profile_compile_mode`).
    pub fn compile_mode(&self) -> (r: CompileMode)
        ensures
            r == profile_compile_mode(text_opt(self.compile_mode)),
    {
        let lower = match &self.compile_mode {
            Some(m) => to_lowercase(m.as_str()),
            None => to_lowercase("build-release"),
        };
        if same_text(lower.as_str(), "check") {
            CompileMode::Check
        } else if same_text(lower.as_str(), "incremental") {
            CompileMode::Incremental
        } else {
            CompileMode::BuildRelease
        }
    }
}

/// Lays `overlay` over `base` (see `merged`).
pub fn merge_profile(base: &mut ProfileSettings, overlay: &ProfileSettings)
    ensures
        final(base)@ == merged(old(base)@, overlay@),
{
    base.duration_secs = overlay.duration_secs;
    base.intensity = overlay.intensity;
    if overlay.threads != 0 {
        base.threads = overlay.threads;
    }
    if overlay.workloads.len() != 0 {
        base.workloads = clone_texts(&overlay.workloads);
    }
    if overlay.memory.is_some() {
        base.memory = clone_text_opt(&overlay.memory);
    }
    if overlay.memory_cap_override {
        base.memory_cap_override = true;
    }
    if !same_text(overlay.io_dir.as_str(), "libstress-io") {
        base.io_dir = overlay.io_dir.clone();
    }
    base.compile_modules = overlay.compile_modules;
    if overlay.compile_mode.is_some() {
        base.compile_mode = clone_text_opt(&overlay.compile_mode);
    }
    if overlay.compile_dir.is_some() {
        base.compile_dir = clone_text_opt(&overlay.compile_dir);
    }
    if overlay.ecs {
        base.ecs = true;
    }
    if overlay.max_disk_gb_bits.is_some() {
        base.max_disk_gb_bits = overlay.max_disk_gb_bits;
    }
    if overlay.net_port.is_some() {
        base.net_port = overlay.net_port;
    }
}

/// The settings of an optional profile.
pub open spec fn profile_opt(o: Option<ProfileSettings>) -> Option<ProfileView> {
    match o {
        Some(p) => Some(p@),
        None => None,
    }
}

/// The profile map that a list of named profiles stands for; a later entry wins.
pub open spec fn entries_map(s: Seq<(String, ProfileSettings)>) -> Map<Seq<char>, ProfileView>
    decreases s.len(),
{
    if s.len() == 0 {
        Map::empty()
    } else {
        entries_map(s.drop_last()).insert(s.last().0@, s.last().1@)
    }
}

/// No two entries carry the same name.
pub open spec fn keys_unique(s: Seq<(String, ProfileSettings)>) -> bool {
    forall|i: int, j: int| 0 <= i < j < s.len() ==> s[i].0@ != s[j].0@
}

proof fn lemma_entries_in(s: Seq<(String, ProfileSettings)>, i: int)
    requires
        keys_unique(s),
        0 <= i < s.len(),
    ensures
        entries_map(s).dom().contains(s[i].0@),
        entries_map(s)[s[i].0@] == s[i].1@,
    decreases s.len(),
{
    if i < s.len() - 1 {
        assert(s.drop_last()[i] == s[i]);
        lemma_entries_in(s.drop_last(), i);
        assert(s.last().0@ != s[i].0@);
    }
}

proof fn lemma_entries_out(s: Seq<(String, ProfileSettings)>, k: Seq<char>)
    requires
        forall|i: int| 0 <= i < s.len() ==> (#[trigger] s[i]).0@ != k,
    ensures
        !entries_map(s).dom().contains(k),
    decreases s.len(),
{
    if s.len() > 0 {
        assert forall|i: int| 0 <= i < s.drop_last().len() implies (#[trigger] s.drop_last()[i]).0@ != k by {
            assert(s.drop_last()[i] == s[i]);
        }
        lemma_entries_out(s.drop_last(), k);
        assert(s.last() == s[s.len() - 1]);
    }
}

proof fn lemma_entries_dom(s: Seq<(String, ProfileSettings)>, k: Seq<char>)
    requires
        entries_map(s).dom().contains(k),
    ensures
        exists|i: int| 0 <= i < s.len() && (#[trigger] s[i]).0@ == k,
{
    if forall|i: int| 0 <= i < s.len() ==> (#[trigger] s[i]).0@ != k {
        lemma_entries_out(s, k);
    }
}

proof fn lemma_entries_update(s: Seq<(String, ProfileSettings)>, i: int, e: (String, ProfileSettings))
    requires
        keys_unique(s),
        0 <= i < s.len(),
        s[i].0@ == e.0@,
    ensures
        keys_unique(s.update(i, e)),
        entries_map(s.update(i, e)) == entries_map(s).insert(e.0@, e.1@),
{
    let t = s.update(i, e);
    assert forall|a: int, b: int| 0 <= a < b < t.len() implies t[a].0@ != t[b].0@ by {
        assert(s[a].0@ == t[a].0@);
        assert(s[b].0@ == t[b].0@);
    }
    let m = entries_map(s).insert(e.0@, e.1@);
    assert forall|k: Seq<char>| #[trigger] entries_map(t).dom().contains(k) <==> m.dom().contains(k) by {
        if entries_map(t).dom().contains(k) {
            lemma_entries_dom(t, k);
            let j = choose|j: int| 0 <= j < t.len() && (#[trigger] t[j]).0@ == k;
            if j != i {
                lemma_entries_in(s, j);
            }
        }
        if m.dom().contains(k) {
            if k == e.0@ {
                lemma_entries_in(t, i);
            } else {
                lemma_entries_dom(s, k);
                let j = choose|j: int| 0 <= j < s.len() && (#[trigger] s[j]).0@ == k;
                lemma_entries_in(t, j);
            }
        }
    }
    assert forall|k: Seq<char>| #[trigger] entries_map(t).dom().contains(k) implies entries_map(t)[k] == m[k] by {
        lemma_entries_dom(t, k);
        let j = choose|j: int| 0 <= j < t.len() && (#[trigger] t[j]).0@ == k;
        lemma_entries_in(t, j);
        if j != i {
            lemma_entries_in(s, j);
        }
    }
    assert(entries_map(t) =~= m);
}

/// Failures of configuration lookups.
#[derive(Debug)]
pub enum ConfigError {
    /// No profile of this name exists.
    UnknownProfile(String),
}

impl ConfigError {
    /// The text that describes the failure.
    pub fn message(&self) -> (r: String)
        ensures
            match self {
                ConfigError::UnknownProfile(name) => r@ == "unknown profile '"@ + name@ + "'"@,
            },
    {
        match self {
            ConfigError::UnknownProfile(name) => join2("unknown profile '", name.as_str()).concat("'"),
        }
    }
}

/// The top-level configuration file (`libstress.toml`): named profiles and optional defaults.
#[derive(Debug)]
pub struct FileConfig {
    profiles: Vec<(String, ProfileSettings)>,
    defaults: Option<ProfileSettings>,
}

impl FileConfig {
    #[verifier::type_invariant]
    spec fn names_unique(&self) -> bool {
        keys_unique(self.profiles@)
    }

    /// The profiles, by name.
    pub closed spec fn profile_map(&self) -> Map<Seq<char>, ProfileView> {
        entries_map(self.profiles@)
    }

    /// The `[defaults]` table, if any.
    pub closed spec fn defaults_view(&self) -> Option<ProfileView> {
        profile_opt(self.defaults)
    }

    /// A configuration with no profiles and no defaults.
    pub fn new() -> (r: Self)
        ensures
            r.profile_map() == Map::<Seq<char>, ProfileView>::empty(),
            r.defaults_view() is None,
    {
        let r = FileConfig { profiles: Vec::new(), defaults: None };
        assert(r.profiles@.len() == 0);
        r
    }

    /// The `[defaults]` table, if any.
    pub fn defaults(&self) -> (r: &Option<ProfileSettings>)
        ensures
            profile_opt(*r) == self.defaults_view(),
    {
        &self.defaults
    }

    /// Replaces the `[defaults]` table.
    pub fn set_defaults(&mut self, defaults: Option<ProfileSettings>)
        ensures
            final(self).defaults_view() == profile_opt(defaults),
            final(self).profile_map() == old(self).profile_map(),
    {
        proof {
            use_type_invariant(&*self);
        }
        self.defaults = defaults;
    }

    fn find(&self, name: &str) -> (r: Option<usize>)
        ensures
            match r {
                Some(i) => i < self.profiles@.len() && self.profiles@[i as int].0@ == name@,
                None => forall|i: int| 0 <= i < self.profiles@.len() ==> (#[trigger] self.profiles@[i]).0@ != name@,
            },
    {
        let mut i: usize = 0;
        while i < self.profiles.len()
            invariant
                i <= self.profiles@.len(),
                forall|j: int| 0 <= j < i ==> (#[trigger] self.profiles@[j]).0@ != name@,
            decreases self.profiles.len() - i,
        {
            if same_text(self.profiles[i].0.as_str(), name) {
                return Some(i);
            }
            i = i + 1;
        }
        None
    }

    /// Whether a profile of this name exists.
    pub fn contains_profile(&self, name: &str) -> (r: bool)
        ensures
            r == self.profile_map().dom().contains(name@),
    {
        proof {
            use_type_invariant(self);
        }
        match self.find(name) {
            Some(i) => {
                proof {
                    lemma_entries_in(self.profiles@, i as int);
                }
                true
            },
            None => {
                proof {
                    lemma_entries_out(self.profiles@, name@);
                }
                false
            },
        }
    }

    /// The profile of this name, if any.
    pub fn get_profile(&self, name: &str) -> (r: Option<&ProfileSettings>)
        ensures
            match r {
                Some(p) => self.profile_map().dom().contains(name@) && p@ == self.profile_map()[name@],
                None => !self.profile_map().dom().contains(name@),
            },
    {
        proof {
            use_type_invariant(self);
        }
        match self.find(name) {
            Some(i) => {
                proof {
                    lemma_entries_in(self.profiles@, i as int);
                }
                Some(&self.profiles[i].1)
            },
            None => {
                proof {
                    lemma_entries_out(self.profiles@, name@);
                }
                None
            },
        }
    }

    /// Adds a profile, replacing any of the same name.
    pub fn insert_profile(&mut self, name: String, settings: ProfileSettings)
        ensures
            final(self).profile_map() == old(self).profile_map().insert(name@, settings@),
            final(self).defaults_view() == old(self).defaults_view(),
    {
        proof {
            use_type_invariant(&*self);
        }
        let found = self.find(name.as_str());
        let mut profiles: Vec<(String, ProfileSettings)> = Vec::new();
        std::mem::swap(&mut profiles, &mut self.profiles);
        match found {
            Some(i) => {
                proof {
                    lemma_entries_update(profiles@, i as int, (name, settings));
                }
                profiles.set(i, (name, settings));
            },
            None => {
                let ghost before = profiles@;
                profiles.push((name, settings));
                assert(profiles@.drop_last() =~= before);
            },
        }
        self.profiles = profiles;
    }

    /// The named profile laid over the defaults (or the built-in settings when there
    /// are no defaults); an unknown name is an error.
    pub fn resolve_profile(&self, name: &str) -> (r: Result<ProfileSettings, ConfigError>)
        ensures
            match r {
                Ok(p) => self.profile_map().dom().contains(name@) && p@ == merged(
                    base_profile(self.defaults_view()),
                    self.profile_map()[name@],
                ),
                Err(e) => !self.profile_map().dom().contains(name@) && (e matches ConfigError::UnknownProfile(n) && n@ == name@),
            },
    {
        let mut base = match self.defaults() {
            Some(d) => d.clone(),
            None => ProfileSettings::default(),
        };
        match self.get_profile(name) {
            Some(overlay) => {
                merge_profile(&mut base, overlay);
                Ok(base)
            },
            None => Err(ConfigError::UnknownProfile(owned(name))),
        }
    }

    /// The profile names, sorted.
    pub fn profile_names(&self) -> (r: Vec<String>)
        ensures
            sorted_texts(texts(r@)),
            forall|k: Seq<char>| self.profile_map().dom().contains(k) <==> texts(r@).contains(k),
    {
        proof {
            use_type_invariant(self);
        }
        let ghost entries = self.profiles@;
        let mut names: Vec<String> = Vec::new();
        let mut chars: Vec<Vec<char>> = Vec::new();
        let mut i: usize = 0;
        while i < self.profiles.len()
            invariant
                entries == self.profiles@,
                keys_unique(entries),
                i <= entries.len(),
                names@.len() == chars@.len(),
                forall|m: int| 0 <= m < names@.len() ==> (#[trigger] chars@[m])@ == names@[m]@,
                sorted_texts(texts(names@)),
                forall|k: Seq<char>| texts(names@).contains(k) <==> exists|j: int| 0 <= j < i && (#[trigger] entries[j]).0@ == k,
            decreases entries.len() - i,
        {
            let key = self.profiles[i].0.clone();
            let kc = chars_of(key.as_str());
            let mut p: usize = 0;
            while p < chars.len() && text_less(&chars[p], &kc)
                invariant
                    p <= chars@.len(),
                    names@.len() == chars@.len(),
                    forall|m: int| 0 <= m < names@.len() ==> (#[trigger] chars@[m])@ == names@[m]@,
                    kc@ == key@,
                    forall|m: int| 0 <= m < p ==> text_lt(#[trigger] names@[m]@, key@),
                decreases chars@.len() - p,
            {
                p = p + 1;
            }
            let ghost old_texts = texts(names@);
            proof {
                assert forall|m: int| 0 <= m < old_texts.len() implies old_texts[m] != key@ by {
                    assert(old_texts.contains(old_texts[m]));
                    let j = choose|j: int| 0 <= j < i && (#[trigger] entries[j]).0@ == old_texts[m];
                    assert(entries[j].0@ != entries[i as int].0@);
                }
                if p < names@.len() {
                    assert(old_texts[p as int] == names@[p as int]@);
                    assert(!text_lt(old_texts[p as int], key@));
                    lemma_text_lt_total(old_texts[p as int], key@);
                    assert forall|m: int| p <= m < old_texts.len() implies text_lt(key@, old_texts[m]) by {
                        if m > p {
                            lemma_text_lt_transitive(key@, old_texts[p as int], old_texts[m]);
                        }
                    }
                }
                lemma_sorted_insert(old_texts, p as int, key@);
            }
            names.insert(p, key);
            chars.insert(p, kc);
            proof {
                assert(texts(names@) =~= old_texts.insert(p as int, entries[i as int].0@));
                assert forall|k: Seq<char>| texts(names@).contains(k) <==> exists|j: int| 0 <= j < i + 1 && (#[trigger] entries[j]).0@ == k by {
                    if texts(names@).contains(k) {
                        let m = choose|m: int| 0 <= m < texts(names@).len() && texts(names@)[m] == k;
                        if m != p {
                            let m2 = if m < p { m } else { m - 1 };
                            assert(old_texts[m2] == k);
                            assert(old_texts.contains(k));
                        }
                    }
                    if exists|j: int| 0 <= j < i + 1 && (#[trigger] entries[j]).0@ == k {
                        let j = choose|j: int| 0 <= j < i + 1 && (#[trigger] entries[j]).0@ == k;
                        if j == i {
                            assert(texts(names@)[p as int] == k);
                        } else {
                            assert(old_texts.contains(k));
                            let m = choose|m: int| 0 <= m < old_texts.len() && old_texts[m] == k;
                            let m2 = if m < p { m } else { m + 1 };
                            assert(texts(names@)[m2] == k);
                        }
                    }
                }
            }
            i = i + 1;
        }
        proof {
            assert forall|k: Seq<char>| self.profile_map().dom().contains(k) <==> texts(names@).contains(k) by {
                if self.profile_map().dom().contains(k) {
                    lemma_entries_dom(entries, k);
                }
                if texts(names@).contains(k) {
                    let j = choose|j: int| 0 <= j < i && (#[trigger] entries[j]).0@ == k;
                    lemma_entries_in(entries, j);
                }
            }
        }
        names
    }
}

/// The base a profile is laid over: the defaults, or the built-in settings.
pub open spec fn base_profile(defaults: Option<ProfileView>) -> ProfileView {
    match defaults {
        Some(d) => d,
        None => default_profile(),
    }
}

/// Strictly ascending in code-point lexicographic order (hence without repeats).
pub open spec fn sorted_texts(s: Seq<Seq<char>>) -> bool {
    forall|i: int, j: int| 0 <= i < j < s.len() ==> text_lt(s[i], s[j])
}

proof fn lemma_sorted_insert(s: Seq<Seq<char>>, p: int, x: Seq<char>)
    requires
        sorted_texts(s),
        0 <= p <= s.len(),
        forall|m: int| 0 <= m < p ==> text_lt(s[m], x),
        forall|m: int| p <= m < s.len() ==> text_lt(x, s[m]),
    ensures
        sorted_texts(s.insert(p, x)),
{
    let t = s.insert(p, x);
    assert forall|a: int, b: int| 0 <= a < b < t.len() implies text_lt(t[a], t[b]) by {
        if a < p && b < p {
        } else if a < p && b == p {
        } else if a < p && b > p {
            assert(t[b] == s[b - 1]);
        } else if a == p {
            assert(t[b] == s[b - 1]);
        } else {
            assert(t[a] == s[a - 1]);
            assert(t[b] == s[b - 1]);
        }
    }
}

/// The defaults of a merged configuration: the overlay's defaults laid over the base's
/// (or over the built-in settings), else the base's defaults.
pub open spec fn merged_defaults(base: Option<ProfileView>, overlay: Option<ProfileView>) -> Option<ProfileView> {
    match overlay {
        Some(d) => Some(merged(base_profile(base), d)),
        None => base,
    }
}

/// Lays the overlay configuration over the base: its defaults are merged into the
/// base defaults and each of its profiles replaces the base profile of that name.
pub fn merge_configs(base: FileConfig, overlay: FileConfig) -> (r: FileConfig)
    ensures
        r.profile_map() == base.profile_map().union_prefer_right(overlay.profile_map()),
        r.defaults_view() == merged_defaults(base.defaults_view(), overlay.defaults_view()),
{
    let ghost base_map = base.profile_map();
    let ghost base_defaults = base.defaults_view();
    let mut result = base;
    match overlay.defaults() {
        Some(d) => {
            let mut b = match result.defaults() {
                Some(x) => x.clone(),
                None => ProfileSettings::default(),
            };
            merge_profile(&mut b, d);
            result.set_defaults(Some(b));
        },
        None => {},
    }
    let mut i: usize = 0;
    assert(entries_map(overlay.profiles@.take(0)) =~= Map::<Seq<char>, ProfileView>::empty());
    assert(base_map.union_prefer_right(Map::<Seq<char>, ProfileView>::empty()) =~= base_map);
    while i < overlay.profiles.len()
        invariant
            i <= overlay.profiles@.len(),
            result.profile_map() == base_map.union_prefer_right(entries_map(overlay.profiles@.take(i as int))),
            result.defaults_view() == merged_defaults(base_defaults, overlay.defaults_view()),
        decreases overlay.profiles.len() - i,
    {
        let name = overlay.profiles[i].0.clone();
        let settings = overlay.profiles[i].1.clone();
        let ghost before = entries_map(overlay.profiles@.take(i as int));
        result.insert_profile(name, settings);
        proof {
            let t = overlay.profiles@.take(i + 1);
            assert(t.drop_last() =~= overlay.profiles@.take(i as int));
            assert(t.last() == overlay.profiles@[i as int]);
            assert(entries_map(t) == before.insert(name@, settings@));
            assert(base_map.union_prefer_right(before.insert(name@, settings@)) =~= base_map.union_prefer_right(before).insert(name@, settings@));
        }
        i = i + 1;
    }
    assert(overlay.profiles@.take(overlay.profiles@.len() as int) =~= overlay.profiles@);
    result
}

/// A configuration's profiles with another (optional) configuration laid over them.
pub open spec fn profiles_over(base: Map<Seq<char>, ProfileView>, overlay: Option<FileConfig>) -> Map<
    Seq<char>,
    ProfileView,
> {
    match overlay {
        Some(c) => base.union_prefer_right(c.profile_map()),
        None => base,
    }
}

/// A configuration's defaults with another (optional) configuration laid over them.
pub open spec fn defaults_over(base: Option<ProfileView>, overlay: Option<FileConfig>) -> Option<ProfileView> {
    match overlay {
        Some(c) => merged_defaults(base, c.defaults_view()),
        None => base,
    }
}

/// The configuration a run uses, in layers: the built-in profiles, then the discovered
/// file (`./libstress.toml` or the user's), then the `--config` file, each laid over
/// what came before.
pub fn layered_config(builtin: FileConfig, discovered: Option<FileConfig>, explicit: Option<FileConfig>) -> (r:
    FileConfig)
    ensures
        r.profile_map() == profiles_over(profiles_over(builtin.profile_map(), discovered), explicit),
        r.defaults_view() == defaults_over(defaults_over(builtin.defaults_view(), discovered), explicit),
{
    let with_discovered = match discovered {
        Some(d) => merge_configs(builtin, d),
        None => builtin,
    };
    match explicit {
        Some(e) => merge_configs(with_discovered, e),
        None => with_discovered,
    }
}

/// Law: in the layered configuration a profile of the `--config` file wins over the
/// discovered file's and the built-in one of the same name, and a discovered profile
/// wins over the built-in one.
pub proof fn law_config_layers(
    builtin: FileConfig,
    discovered: Option<FileConfig>,
    explicit: Option<FileConfig>,
    name: Seq<char>,
)
    ensures
        explicit matches Some(e) ==> (e.profile_map().dom().contains(name) ==> profiles_over(
            profiles_over(builtin.profile_map(), discovered),
            explicit,
        )[name] == e.profile_map()[name]),
        discovered matches Some(d) ==> (d.profile_map().dom().contains(name) && !(explicit matches Some(e)
            && e.profile_map().dom().contains(name)) ==> profiles_over(
            profiles_over(builtin.profile_map(), discovered),
            explicit,
        )[name] == d.profile_map()[name]),
{
}

/// A built-in profile: the given duration, intensity and workload names, other
/// settings as in `default_profile`.
pub open spec fn preset_view(duration_secs: u64, intensity: u8, workloads: Seq<Seq<char>>) -> ProfileView {
    ProfileView { duration_secs, intensity, workloads, ..default_profile() }
}

/// The profiles shipped with the library.
pub open spec fn embedded_profiles() -> Map<Seq<char>, ProfileView> {
    Map::empty().insert("ci-quick"@, preset_view(15, 4, seq!["cpu"@, "mem"@])).insert(
        "ci-full"@,
        ProfileView {
            compile_mode: Some("check"@),
            ..preset_view(120, 6, seq!["cpu"@, "mem"@, "io"@, "compile"@])
        },
    ).insert("dev"@, preset_view(60, 5, seq!["cpu"@, "mem"@, "io"@])).insert(
        "compiler-torture"@,
        ProfileView {
            compile_mode: Some("incremental"@),
            compile_modules: 200,
            ..preset_view(1800, 7, seq!["compile"@])
        },
    ).insert("full"@, preset_view(300, 7, seq!["cpu"@, "mem"@, "io"@, "compile"@])).insert(
        "overnight"@,
        preset_view(28800, 6, seq!["cpu"@, "mem"@, "io"@]),
    ).insert("net-loopback"@, ProfileView { net_port: Some(19456u16), ..preset_view(60, 5, seq!["net"@]) })
}

fn preset(duration_secs: u64, intensity: u8, workloads: Vec<String>) -> (r: ProfileSettings)
    ensures
        r@ == preset_view(duration_secs, intensity, texts(workloads@)),
{
    let mut p = ProfileSettings::default();
    p.duration_secs = duration_secs;
    p.intensity = intensity;
    p.workloads = workloads;
    p
}

fn names2(a: &str, b: &str) -> (r: Vec<String>)
    ensures
        texts(r@) == seq![a@, b@],
{
    let mut v: Vec<String> = Vec::new();
    v.push(owned(a));
    v.push(owned(b));
    assert(texts(v@) =~= seq![a@, b@]);
    v
}

fn names3(a: &str, b: &str, c: &str) -> (r: Vec<String>)
    ensures
        texts(r@) == seq![a@, b@, c@],
{
    let mut v: Vec<String> = Vec::new();
    v.push(owned(a));
    v.push(owned(b));
    v.push(owned(c));
    assert(texts(v@) =~= seq![a@, b@, c@]);
    v
}

fn names4(a: &str, b: &str, c: &str, d: &str) -> (r: Vec<String>)
    ensures
        texts(r@) == seq![a@, b@, c@, d@],
{
    let mut v: Vec<String> = Vec::new();
    v.push(owned(a));
    v.push(owned(b));
    v.push(owned(c));
    v.push(owned(d));
    assert(texts(v@) =~= seq![a@, b@, c@, d@]);
    v
}

fn names1(a: &str) -> (r: Vec<String>)
    ensures
        texts(r@) == seq![a@],
{
    let mut v: Vec<String> = Vec::new();
    v.push(owned(a));
    assert(texts(v@) =~= seq![a@]);
    v
}

impl FileConfig {
    /// The configuration shipped with the library: the profiles `ci-quick`, `ci-full`,
    /// `dev`, `compiler-torture`, `full`, `overnight` and `net-loopback`, no defaults.
    pub fn embedded() -> (r: FileConfig)
        ensures
            r.profile_map() == embedded_profiles(),
            r.defaults_view() is None,
    {
        let mut cfg = FileConfig::new();
        cfg.insert_profile(owned("ci-quick"), preset(15, 4, names2("cpu", "mem")));
        let mut ci_full = preset(120, 6, names4("cpu", "mem", "io", "compile"));
        ci_full.compile_mode = Some(owned("check"));
        cfg.insert_profile(owned("ci-full"), ci_full);
        cfg.insert_profile(owned("dev"), preset(60, 5, names3("cpu", "mem", "io")));
        let mut torture = preset(1800, 7, names1("compile"));
        torture.compile_mode = Some(owned("incremental"));
        torture.compile_modules = 200;
        cfg.insert_profile(owned("compiler-torture"), torture);
        cfg.insert_profile(owned("full"), preset(300, 7, names4("cpu", "mem", "io", "compile")));
        cfg.insert_profile(owned("overnight"), preset(28800, 6, names3("cpu", "mem", "io")));
        let mut net = preset(60, 5, names1("net"));
        net.net_port = Some(19456);
        cfg.insert_profile(owned("net-loopback"), net);
        cfg
    }
}

/// Law: laying the same profile over a result a second time changes nothing.
pub proof fn law_merge_idempotent(base: ProfileView, overlay: ProfileView)
    ensures
        merged(merged(base, overlay), overlay) == merged(base, overlay),
{
}

/// Law: laying a profile over itself gives that profile back.
pub proof fn law_merge_self(p: ProfileView)
    ensures
        merged(p, p) == p,
{
}

/// Law: in a merged configuration a profile of the later (overlay) file replaces the
/// earlier one of the same name, and the earlier file's other profiles stay.
pub proof fn law_later_config_wins(base: FileConfig, overlay: FileConfig, name: Seq<char>)
    ensures
        overlay.profile_map().dom().contains(name) ==> base.profile_map().union_prefer_right(
            overlay.profile_map(),
        )[name] == overlay.profile_map()[name],
        !overlay.profile_map().dom().contains(name) && base.profile_map().dom().contains(name)
            ==> base.profile_map().union_prefer_right(overlay.profile_map())[name]
            == base.profile_map()[name],
{
}

proof fn lemma_label_parses(k: WorkloadKind)
    ensures
        lowercased(label_of(k)) == label_of(k),
        workload_named(label_of(k)) == Some(k),
{
    reveal_strlit("cpu");
    reveal_strlit("mem");
    reveal_strlit("memory");
    reveal_strlit("io");
    reveal_strlit("disk");
    reveal_strlit("compile");
    reveal_strlit("compiler");
    reveal_strlit("gpu");
    reveal_strlit("net");
    reveal_strlit("network");
    reveal_strlit("sched");
    reveal_strlit("threads");
    reveal_strlit("all");
    let l = label_of(k);
    assert(ascii_text(l));
    assert(l.map_values(|c: char| ascii_lower_char(c)) =~= l);
    match k {
        WorkloadKind::Cpu => {},
        WorkloadKind::Memory => {
            assert(l != "cpu"@ && l != "mem"@);
        },
        WorkloadKind::Io => {
            assert(l != "cpu"@ && l != "mem"@ && l != "memory"@);
        },
        WorkloadKind::Compile => {
            assert(l != "cpu"@ && l != "mem"@ && l != "memory"@ && l != "io"@ && l != "disk"@);
        },
        WorkloadKind::Gpu => {
            assert(l[0] == 'g' && "cpu"@[0] == 'c' && "mem"@[0] == 'm');
            assert(l != "cpu"@ && l != "mem"@ && l != "memory"@ && l != "io"@ && l != "disk"@);
            assert(l != "compile"@ && l != "compiler"@);
        },
        WorkloadKind::Net => {
            assert(l[0] == 'n' && "cpu"@[0] == 'c' && "mem"@[0] == 'm');
            assert(l != "cpu"@ && l != "mem"@ && l != "memory"@ && l != "io"@ && l != "disk"@);
            assert(l != "compile"@ && l != "compiler"@ && l != "gpu"@);
        },
        WorkloadKind::Sched => {
            assert(l != "cpu"@ && l != "mem"@ && l != "memory"@ && l != "io"@ && l != "disk"@);
            assert(l != "compile"@ && l != "compiler"@ && l != "gpu"@ && l != "net"@ && l != "network"@);
        },
        WorkloadKind::All => {
            assert(l[0] == 'a' && "cpu"@[0] == 'c' && "mem"@[0] == 'm' && "gpu"@[0] == 'g' && "net"@[0] == 'n');
            assert(l != "cpu"@ && l != "mem"@ && l != "memory"@ && l != "io"@ && l != "disk"@);
            assert(l != "compile"@ && l != "compiler"@ && l != "gpu"@ && l != "net"@ && l != "network"@);
            assert(l != "sched"@ && l != "threads"@);
        },
    }
}

/// Law: a profile that lists workloads by the labels reports print (`workload_label`)
/// gives back exactly those workloads, in the same order.
pub proof fn law_labels_round_trip(ks: Seq<WorkloadKind>)
    requires
        ks.len() > 0,
    ensures
        profile_workloads(ks.map_values(|k: WorkloadKind| label_of(k))) == ks,
{
    lemma_named_labels(ks);
}

proof fn lemma_named_labels(ks: Seq<WorkloadKind>)
    ensures
        named_workloads(ks.map_values(|k: WorkloadKind| label_of(k))) == ks,
    decreases ks.len(),
{
    let names = ks.map_values(|k: WorkloadKind| label_of(k));
    if ks.len() == 0 {
        assert(ks =~= Seq::<WorkloadKind>::empty());
    } else {
        lemma_named_labels(ks.drop_last());
        assert(names.drop_last() =~= ks.drop_last().map_values(|k: WorkloadKind| label_of(k)));
        lemma_label_parses(ks.last());
        assert(names.last() == label_of(ks.last()));
        assert(ks.drop_last().push(ks.last()) =~= ks);
    }
}

/// Law: a setting the overlay gives wins over the base's, and a setting it leaves out
/// keeps the base's: a present option, a non-zero thread count, a non-empty workload
/// list and an I/O directory other than the default replace the base's; flags are
/// switched on by either side; duration, intensity and module count are the overlay's.
pub proof fn law_overlay_settings_win(base: ProfileView, overlay: ProfileView)
    ensures
        overlay.memory is Some ==> merged(base, overlay).memory == overlay.memory,
        overlay.memory is None ==> merged(base, overlay).memory == base.memory,
        overlay.compile_mode is Some ==> merged(base, overlay).compile_mode == overlay.compile_mode,
        overlay.compile_mode is None ==> merged(base, overlay).compile_mode == base.compile_mode,
        overlay.compile_dir is Some ==> merged(base, overlay).compile_dir == overlay.compile_dir,
        overlay.compile_dir is None ==> merged(base, overlay).compile_dir == base.compile_dir,
        overlay.net_port is Some ==> merged(base, overlay).net_port == overlay.net_port,
        overlay.net_port is None ==> merged(base, overlay).net_port == base.net_port,
        overlay.max_disk_gb_bits is Some ==> merged(base, overlay).max_disk_gb_bits == overlay.max_disk_gb_bits,
        overlay.max_disk_gb_bits is None ==> merged(base, overlay).max_disk_gb_bits == base.max_disk_gb_bits,
        overlay.threads != 0 ==> merged(base, overlay).threads == overlay.threads,
        overlay.threads == 0 ==> merged(base, overlay).threads == base.threads,
        overlay.workloads.len() > 0 ==> merged(base, overlay).workloads == overlay.workloads,
        overlay.workloads.len() == 0 ==> merged(base, overlay).workloads == base.workloads,
        overlay.io_dir != default_io_dir_text() ==> merged(base, overlay).io_dir == overlay.io_dir,
        overlay.io_dir == default_io_dir_text() ==> merged(base, overlay).io_dir == base.io_dir,
        merged(base, overlay).memory_cap_override == (base.memory_cap_override || overlay.memory_cap_override),
        merged(base, overlay).ecs == (base.ecs || overlay.ecs),
        merged(base, overlay).duration_secs == overlay.duration_secs,
        merged(base, overlay).intensity == overlay.intensity,
        merged(base, overlay).compile_modules == overlay.compile_modules,
{
}

} // verus!
