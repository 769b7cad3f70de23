use vstd::prelude::*;
use crate::keys::Keys;

verus! {

/// Text-to-speech parameters carried in the configuration.
#[derive(Debug, Clone, Copy, PartialEq, Eq, Structural)]
pub struct TtsConfig {
    pub speed: i32,
    pub pitch: i32,
    pub volume: i32,
}

impl Default for TtsConfig {
    fn default() -> (r: Self)
        ensures
            r == (TtsConfig { speed: 50, pitch: 50, volume: 50 }),
    {
        TtsConfig { speed: 50, pitch: 50, volume: 50 }
    }
}

/// Mouse behaviour carried in the configuration.
#[derive(Debug, Clone, Copy, PartialEq, Eq, Structural)]
pub struct MouseConfig {
    /// Whether the element under the moving mouse is read out.
    pub is_read: bool,
}

impl Default for MouseConfig {
    fn default() -> (r: Self)
        ensures
            r == (MouseConfig { is_read: false }),
    {
        MouseConfig { is_read: false }
    }
}

/// The user's chord overrides: for each capability identity, the key list
/// that replaces the capability's default chords.
pub struct HotKeysConfig {
    pub keys: Vec<(String, Vec<Keys>)>,
}

/// The override entries as plain values.
pub open spec fn spec_overrides_view(v: Seq<(String, Vec<Keys>)>) -> Seq<(Seq<char>, Seq<Keys>)> {
    v.map_values(|e: (String, Vec<Keys>)| (e.0@, e.1@))
}

/// The override key list for `id`: the first entry with that identity, if
/// one exists.
pub open spec fn spec_override_for(o: Seq<(Seq<char>, Seq<Keys>)>, id: Seq<char>) -> Option<
    Seq<Keys>,
>
    decreases o.len(),
{
    if o.len() == 0 {
        None
    } else if o[0].0 == id {
        Some(o[0].1)
    } else {
        spec_override_for(o.drop_first(), id)
    }
}

impl HotKeysConfig {
    pub open spec fn view(self) -> Seq<(Seq<char>, Seq<Keys>)> {
        spec_overrides_view(self.keys@)
    }

    /// A configuration with no overrides.
    pub fn new() -> (r: HotKeysConfig)
        ensures
            r@.len() == 0,
    {
        HotKeysConfig { keys: Vec::new() }
    }

    /// Register an override: `keys` replaces the default chords of the
    /// capability with identity `id`.
    pub fn set(&mut self, id: String, keys: Vec<Keys>)
        ensures
            final(self)@ == old(self)@.push((id@, keys@)),
    {
        self.keys.push((id, keys));
        proof {
            assert(final(self)@ =~= old(self)@.push((self.keys@.last().0@,
                self.keys@.last().1@)));
        }
    }

    /// Look up the override key list for `id`.
    pub fn get(&self, id: &str) -> (r: Option<Vec<Keys>>)
        ensures
            match r {
                Some(keys) => spec_override_for(self@, id@) == Some(keys@),
                None => spec_override_for(self@, id@) is None,
            },
    {
        let t: String = id.to_owned();
        let n = self.keys.len();
        let mut i: usize = 0;
        proof {
            assert(self@.skip(0) =~= self@);
        }
        while i < n
            invariant
                n == self.keys@.len(),
                0 <= i <= n,
                t@ == id@,
                spec_override_for(self@, id@) == spec_override_for(
                    self@.skip(i as int),
                    id@,
                ),
                forall|j: int| 0 <= j < i ==> self@[j].0 != id@,
            decreases n - i,
        {
            proof {
                assert(self@.skip(i as int)[0] == self@[i as int]);
                assert(self@.skip(i as int).drop_first() =~= self@.skip(i + 1));
            }
            if self.keys[i].0 == t {
                let found = copy_keys(&self.keys[i].1);
                return Some(found);
            }
            i = i + 1;
        }
        proof {
            assert(self@.skip(n as int) =~= Seq::empty());
        }
        None
    }
}

/// Copy a key list given as a slice.
pub fn copy_keys_slice(v: &[Keys]) -> (r: Vec<Keys>)
    ensures
        r@ == v@,
{
    let mut out: Vec<Keys> = Vec::new();
    let n = v.len();
    let mut i: usize = 0;
    while i < n
        invariant
            n == v@.len(),
            0 <= i <= n,
            out@ == v@.take(i as int),
        decreases n - i,
    {
        out.push(v[i]);
        proof {
            assert(v@.take(i + 1) =~= v@.take(i as int).push(v@[i as int]));
        }
        i = i + 1;
    }
    proof {
        assert(v@.take(n as int) =~= v@);
    }
    out
}

/// Copy a key list.
pub fn copy_keys(v: &Vec<Keys>) -> (r: Vec<Keys>)
    ensures
        r@ == v@,
{
    let mut out: Vec<Keys> = Vec::new();
    let n = v.len();
    let mut i: usize = 0;
    while i < n
        invariant
            n == v@.len(),
            0 <= i <= n,
            out@ == v@.take(i as int),
        decreases n - i,
    {
        out.push(v[i]);
        proof {
            assert(v@.take(i + 1) =~= v@.take(i as int).push(v@[i as int]));
        }
        i = i + 1;
    }
    proof {
        assert(v@.take(n as int) =~= v@);
    }
    out
}

/// The whole configuration as plain values.
pub ghost struct ConfigView {
    pub tts: TtsConfig,
    pub mouse: MouseConfig,
    pub hotkeys: Seq<(Seq<char>, Seq<Keys>)>,
}

/// The root of the configuration consumed by this core.
pub struct ConfigRoot {
    pub tts_config: TtsConfig,
    pub mouse_config: MouseConfig,
    pub hotkeys_config: HotKeysConfig,
}

impl View for ConfigRoot {
    type V = ConfigView;

    open spec fn view(&self) -> ConfigView {
        ConfigView {
            tts: self.tts_config,
            mouse: self.mouse_config,
            hotkeys: self.hotkeys_config@,
        }
    }
}

/// The configuration used until a stored one is loaded, and whenever the
/// stored one cannot be read.
pub open spec fn spec_default_config() -> ConfigView {
    ConfigView {
        tts: TtsConfig { speed: 50, pitch: 50, volume: 50 },
        mouse: MouseConfig { is_read: false },
        hotkeys: Seq::empty(),
    }
}

impl Default for ConfigRoot {
    fn default() -> (r: Self)
        ensures
            r@ == spec_default_config(),
    {
        let r = ConfigRoot {
            tts_config: TtsConfig { speed: 50, pitch: 50, volume: 50 },
            mouse_config: MouseConfig { is_read: false },
            hotkeys_config: HotKeysConfig::new(),
        };
        proof {
            assert(r@.hotkeys =~= spec_default_config().hotkeys);
        }
        r
    }
}

/// Holds the current configuration and the path it is persisted under.
///
/// Reading and writing the file itself is input/output and stays with the
/// caller; the manager decides what configuration is in force.
pub struct ConfigManager {
    pub path: String,
    pub config: ConfigRoot,
}

impl ConfigManager {
    /// The configuration currently in force.
    pub open spec fn spec_config(self) -> ConfigView {
        self.config@
    }

    /// A manager for the configuration persisted under `path`, holding the
    /// default configuration until one is applied.
    pub fn new(path: String) -> (r: ConfigManager)
        ensures
            r.path@ == path@,
            r.spec_config() == spec_default_config(),
    {
        ConfigManager { path, config: ConfigRoot::default() }
    }

    /// Decide the configuration a load produced: the stored one when it was
    /// read and understood, the default otherwise.
    pub fn read(&self, loaded: Option<ConfigRoot>) -> (r: ConfigRoot)
        ensures
            r@ == match loaded {
                Some(c) => c@,
                None => spec_default_config(),
            },
    {
        match loaded {
            Some(c) => c,
            None => ConfigRoot::default(),
        }
    }

    /// Put the outcome of a load in force.
    pub fn apply(&mut self, loaded: Option<ConfigRoot>)
        ensures
            final(self).spec_config() == match loaded {
                Some(c) => c@,
                None => spec_default_config(),
            },
            final(self).path == old(self).path,
    {
        let c = self.read(loaded);
        self.config = c;
    }

    /// The configuration currently in force.
    pub fn get_config(&self) -> (r: &ConfigRoot)
        ensures
            r@ == self.spec_config(),
    {
        &self.config
    }

    /// Put `config` in force; the caller persists it.
    pub fn set_config(&mut self, config: ConfigRoot)
        ensures
            final(self).spec_config() == config@,
            final(self).path == old(self).path,
    {
        self.config = config;
    }

    /// Turn mouse reading on or off, keeping the rest of the configuration.
    pub fn apply_mouse_config(&mut self, is_read: bool)
        ensures
            final(self).spec_config().mouse.is_read == is_read,
            final(self).spec_config().tts == old(self).spec_config().tts,
            final(self).spec_config().hotkeys == old(self).spec_config().hotkeys,
            final(self).path == old(self).path,
    {
        self.config.mouse_config.is_read = is_read;
    }
}

} // verus!
