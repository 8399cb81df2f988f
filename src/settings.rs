use vstd::prelude::*;

verus! {

/// Base URL of the ticket service when no source names one.
pub open spec fn default_api() -> Seq<char> {
    "http://localhost:8080"@
}

/// The bearer token used when no configuration source supplies one.
pub open spec fn placeholder_token() -> Seq<char> {
    "xxx-fakeauth"@
}

/// Returns the placeholder bearer token.
pub fn generate_token() -> (r: String)
    ensures
        r@ == placeholder_token(),
{
    String::from_str("xxx-fakeauth")
}

/// The text an optional string holds, if any.
pub open spec fn opt_view(o: Option<String>) -> Option<Seq<char>> {
    match o {
        Some(s) => Some(s@),
        None => None,
    }
}

/// What one configuration source says: each field it sets, and nothing for the others.
pub struct ConfigLayer {
    pub api: Option<String>,
    pub token: Option<String>,
}

/// The mathematical content of a `ConfigLayer`.
pub ghost struct LayerView {
    pub api: Option<Seq<char>>,
    pub token: Option<Seq<char>>,
}

impl View for ConfigLayer {
    type V = LayerView;

    open spec fn view(&self) -> LayerView {
        LayerView { api: opt_view(self.api), token: opt_view(self.token) }
    }
}

/// `high` if it holds a value, else `low`.
pub open spec fn prefer(low: Option<Seq<char>>, high: Option<Seq<char>>) -> Option<Seq<char>> {
    if high is Some {
        high
    } else {
        low
    }
}

/// Right-biased overlay: every field that `high` sets replaces the one of `low`.
pub open spec fn overlay_spec(low: LayerView, high: LayerView) -> LayerView {
    LayerView { api: prefer(low.api, high.api), token: prefer(low.token, high.token) }
}

/// The layers applied in order, each later one over all earlier ones.
pub open spec fn merged(layers: Seq<LayerView>) -> LayerView
    decreases layers.len(),
{
    if layers.len() == 0 {
        LayerView { api: None, token: None }
    } else {
        overlay_spec(merged(layers.drop_last()), layers.last())
    }
}

/// The layer of compiled-in defaults: an API address and no token.
pub open spec fn default_layer_spec() -> LayerView {
    LayerView { api: Some(default_api()), token: None }
}

/// The effective configuration used for every request.
pub struct Settings {
    pub api: String,
    pub token: String,
}

/// The mathematical content of a `Settings`.
pub ghost struct SettingsView {
    pub api: Seq<char>,
    pub token: Seq<char>,
}

impl View for Settings {
    type V = SettingsView;

    open spec fn view(&self) -> SettingsView {
        SettingsView { api: self.api@, token: self.token@ }
    }
}

/// Fills the fields that no layer set: the API from the defaults, the token with the placeholder.
pub open spec fn completed(l: LayerView) -> SettingsView {
    SettingsView {
        api: match l.api {
            Some(a) => a,
            None => default_api(),
        },
        token: match l.token {
            Some(t) => t,
            None => placeholder_token(),
        },
    }
}

/// The effective configuration for a file layer and an environment layer, over the defaults.
pub open spec fn resolved(file: LayerView, env: LayerView) -> SettingsView {
    completed(merged(seq![default_layer_spec(), file, env]))
}

/// Three layers merge as two overlays over the first one laid on an empty layer.
pub proof fn lemma_merged_three(a: LayerView, b: LayerView, c: LayerView)
    ensures
        merged(seq![a, b, c]) == overlay_spec(
            overlay_spec(overlay_spec(LayerView { api: None, token: None }, a), b),
            c,
        ),
{
    let s = seq![a, b, c];
    assert(s.drop_last() =~= seq![a, b]);
    assert(seq![a, b].drop_last() =~= seq![a]);
    assert(seq![a].drop_last() =~= Seq::<LayerView>::empty());
    assert(merged(seq![a]) == overlay_spec(merged(Seq::<LayerView>::empty()), a));
    assert(merged(seq![a, b]) == overlay_spec(merged(seq![a]), b));
    assert(merged(s) == overlay_spec(merged(seq![a, b]), c));
}

/// For each field on its own, the environment's value wins over the file's, and the
/// file's over the compiled-in default.
pub proof fn lemma_precedence(file: LayerView, env: LayerView)
    ensures
        env.api is Some ==> resolved(file, env).api == env.api->Some_0,
        env.api is None && file.api is Some ==> resolved(file, env).api == file.api->Some_0,
        env.api is None && file.api is None ==> resolved(file, env).api == default_api(),
        env.token is Some ==> resolved(file, env).token == env.token->Some_0,
        env.token is None && file.token is Some ==> resolved(file, env).token
            == file.token->Some_0,
{
    lemma_merged_three(default_layer_spec(), file, env);
}

/// Where no source supplies a token, resolution still yields one: the non-empty placeholder.
pub proof fn lemma_placeholder_token(file: LayerView, env: LayerView)
    requires
        file.token is None,
        env.token is None,
    ensures
        resolved(file, env).token == placeholder_token(),
        resolved(file, env).token.len() > 0,
{
    lemma_merged_three(default_layer_spec(), file, env);
    reveal_strlit("xxx-fakeauth");
}

/// Resolution depends on its sources alone: the same file and environment give the same
/// configuration, field for field.
pub proof fn lemma_resolution_deterministic(
    file1: LayerView,
    env1: LayerView,
    file2: LayerView,
    env2: LayerView,
)
    requires
        file1 == file2,
        env1 == env2,
    ensures
        resolved(file1, env1) == resolved(file2, env2),
{
}

/// Why resolution failed, with the underlying cause.
pub enum ConfigError {
    /// The configuration directory or file could not be created.
    Unwritable(String),
    /// The configuration file exists but is not key/value data.
    Malformed(String),
    /// An environment override could not be read as the expected type.
    InvalidEnv(String),
}

/// A copy of an optional string.
fn clone_opt(o: &Option<String>) -> (r: Option<String>)
    ensures
        opt_view(r) == opt_view(*o),
{
    match o {
        Some(s) => Some(s.clone()),
        None => None,
    }
}

impl ConfigLayer {
    /// A layer that sets nothing.
    pub fn empty() -> (r: ConfigLayer)
        ensures
            r@ == (LayerView { api: None, token: None }),
    {
        ConfigLayer { api: None, token: None }
    }

    /// The compiled-in defaults.
    pub fn defaults() -> (r: ConfigLayer)
        ensures
            r@ == default_layer_spec(),
    {
        ConfigLayer { api: Some(String::from_str("http://localhost:8080")), token: None }
    }

    /// Lays `high` over `self`: each field that `high` sets wins.
    pub fn overlay(&mut self, high: &ConfigLayer)
        ensures
            final(self)@ == overlay_spec(old(self)@, high@),
    {
        if high.api.is_some() {
            self.api = clone_opt(&high.api);
        }
        if high.token.is_some() {
            self.token = clone_opt(&high.token);
        }
    }
}

/// Applies the layers in order, lowest precedence first.
pub fn merge_layers(layers: &Vec<ConfigLayer>) -> (r: ConfigLayer)
    ensures
        r@ == merged(layers@.map_values(|l: ConfigLayer| l@)),
{
    let mut acc = ConfigLayer::empty();
    let mut i: usize = 0;
    while i < layers.len()
        invariant
            i <= layers@.len(),
            acc@ == merged(layers@.subrange(0, i as int).map_values(|l: ConfigLayer| l@)),
        decreases layers@.len() - i,
    {
        acc.overlay(&layers[i]);
        proof {
            let next = layers@.subrange(0, i + 1).map_values(|l: ConfigLayer| l@);
            assert(next.drop_last() =~= layers@.subrange(0, i as int).map_values(
                |l: ConfigLayer| l@,
            ));
        }
        i = i + 1;
    }
    assert(layers@.subrange(0, layers@.len() as int) =~= layers@);
    acc
}

impl Settings {
    /// Fills what `layer` leaves unset: the default API, the placeholder token.
    pub fn complete(layer: ConfigLayer) -> (r: Settings)
        ensures
            r@ == completed(layer@),
    {
        let api = match layer.api {
            Some(a) => a,
            None => String::from_str("http://localhost:8080"),
        };
        let token = match layer.token {
            Some(t) => t,
            None => generate_token(),
        };
        Settings { api, token }
    }

    /// The effective configuration: the environment over the file over the defaults.
    pub fn resolve(file: ConfigLayer, env: ConfigLayer) -> (r: Settings)
        ensures
            r@ == resolved(file@, env@),
    {
        let ghost fv = file@;
        let ghost ev = env@;
        let mut layers: Vec<ConfigLayer> = Vec::new();
        layers.push(ConfigLayer::defaults());
        layers.push(file);
        layers.push(env);
        assert(layers@.map_values(|l: ConfigLayer| l@) =~= seq![default_layer_spec(), fv, ev]);
        Settings::complete(merge_layers(&layers))
    }

    /// Resolution from what reading the file and the environment gave: the first
    /// failure, the file's before the environment's, else the resolved configuration.
    pub fn new(file: Result<ConfigLayer, ConfigError>, env: Result<ConfigLayer, ConfigError>) -> (r:
        Result<Settings, ConfigError>)
        ensures
            match file {
                Err(e) => r == Err::<Settings, ConfigError>(e),
                Ok(f) => match env {
                    Err(e) => r == Err::<Settings, ConfigError>(e),
                    Ok(v) => r is Ok && r->Ok_0@ == resolved(f@, v@),
                },
            },
    {
        match file {
            Err(e) => Err(e),
            Ok(f) => match env {
                Err(e) => Err(e),
                Ok(v) => Ok(Settings::resolve(f, v)),
            },
        }
    }
}

} // verus!
