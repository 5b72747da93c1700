//! The manifest: which files are expected, with what content, and where
//! each can be downloaded from.

use vstd::prelude::*;
use vstd::string::*;
use vstd::std_specs::cmp::PartialEqSpecImpl;
use crate::text::{push_char, str_eq};

pub use crate::location::Location;

verus! {

/// A download mirror. Three are known by name; any other key names itself.
#[derive(Debug, Eq, Hash)]
pub enum Provider {
    /// The first mirror, with the key `cloudflare`.
    Cloudflare,
    /// The second mirror, with the key `digitalocean`.
    DigitalOcean,
    /// The source itself, without a mirror before it, with the key `none`.
    /// It is the slowest, and the one to fall back on.
    NoCdn,
    /// A mirror known by its key alone.
    Other(String),
}

/// A provider as a value of the model: the name of an unrecognised provider
/// is the sequence of its characters.
pub enum ProviderView {
    Cloudflare,
    DigitalOcean,
    NoCdn,
    Other(Seq<char>),
}

impl View for Provider {
    type V = ProviderView;

    open spec fn view(&self) -> ProviderView {
        match self {
            Provider::Cloudflare => ProviderView::Cloudflare,
            Provider::DigitalOcean => ProviderView::DigitalOcean,
            Provider::NoCdn => ProviderView::NoCdn,
            Provider::Other(name) => ProviderView::Other(name@),
        }
    }
}

impl ProviderView {
    /// The key under which the provider stands in a manifest and on the
    /// command line.
    pub open spec fn key(self) -> Seq<char> {
        match self {
            ProviderView::Cloudflare => "cloudflare"@,
            ProviderView::DigitalOcean => "digitalocean"@,
            ProviderView::NoCdn => "none"@,
            ProviderView::Other(name) => name,
        }
    }

    /// The name shown to a user.
    pub open spec fn display_name(self) -> Seq<char> {
        match self {
            ProviderView::Cloudflare => "Server #1"@,
            ProviderView::DigitalOcean => "Server #2"@,
            ProviderView::NoCdn => "Server #3 (Slowest)"@,
            ProviderView::Other(name) => name,
        }
    }

    /// The provider that a key stands for.
    pub open spec fn from_key(key: Seq<char>) -> ProviderView {
        if key == "cloudflare"@ {
            ProviderView::Cloudflare
        } else if key == "digitalocean"@ {
            ProviderView::DigitalOcean
        } else if key == "none"@ {
            ProviderView::NoCdn
        } else {
            ProviderView::Other(key)
        }
    }
}

/// A key stands for the provider that has this key, so that a key which
/// names none of the three known providers passes through as it is. And
/// a provider is the one that its key stands for, unless it was made with
/// the key of a known provider as the name of another.
pub proof fn lemma_key_round_trip(key: Seq<char>, provider: ProviderView)
    ensures
        ProviderView::from_key(key).key() == key,
        ProviderView::from_key(provider.key()) == provider || (provider matches ProviderView::Other(
            name,
        ) && (name == "cloudflare"@ || name == "digitalocean"@ || name == "none"@)),
{
    reveal_strlit("cloudflare");
    reveal_strlit("digitalocean");
    reveal_strlit("none");
    assert("cloudflare"@.len() == 10);
    assert("digitalocean"@.len() == 12);
    assert("none"@.len() == 4);
}

impl PartialEq for Provider {
    fn eq(&self, other: &Provider) -> (same: bool) {
        match (self, other) {
            (Provider::Cloudflare, Provider::Cloudflare) => true,
            (Provider::DigitalOcean, Provider::DigitalOcean) => true,
            (Provider::NoCdn, Provider::NoCdn) => true,
            (Provider::Other(a), Provider::Other(b)) => *a == *b,
            _ => false,
        }
    }
}

impl PartialEqSpecImpl for Provider {
    open spec fn obeys_eq_spec() -> bool {
        true
    }

    open spec fn eq_spec(&self, other: &Provider) -> bool {
        self@ == other@
    }
}

impl Clone for Provider {
    fn clone(&self) -> (copy: Provider)
        ensures
            copy@ == self@,
    {
        match self {
            Provider::Cloudflare => Provider::Cloudflare,
            Provider::DigitalOcean => Provider::DigitalOcean,
            Provider::NoCdn => Provider::NoCdn,
            Provider::Other(name) => Provider::Other(name.clone()),
        }
    }
}

impl Provider {
    /// The key under which the provider stands in a manifest and on the
    /// command line.
    pub fn key(&self) -> (key: &str)
        ensures
            key@ == self@.key(),
    {
        match self {
            Provider::Cloudflare => "cloudflare",
            Provider::DigitalOcean => "digitalocean",
            Provider::NoCdn => "none",
            Provider::Other(name) => name.as_str(),
        }
    }

    /// The keys of the providers that are known by name.
    pub fn known_keys() -> (keys: Vec<&'static str>)
        ensures
            keys@.len() == 3,
            keys@[0]@ == "cloudflare"@,
            keys@[1]@ == "digitalocean"@,
            keys@[2]@ == "none"@,
    {
        let mut keys: Vec<&'static str> = Vec::new();
        keys.push("cloudflare");
        keys.push("digitalocean");
        keys.push("none");
        keys
    }

    /// The name shown to a user.
    pub fn display_name(&self) -> (name: &str)
        ensures
            name@ == self@.display_name(),
    {
        match self {
            Provider::Cloudflare => "Server #1",
            Provider::DigitalOcean => "Server #2",
            Provider::NoCdn => "Server #3 (Slowest)",
            Provider::Other(name) => name.as_str(),
        }
    }

    /// The provider that a key stands for: one of the three known ones, or
    /// the key itself as a provider of its own.
    pub fn from_key(key: &str) -> (provider: Provider)
        ensures
            provider@ == ProviderView::from_key(key@),
    {
        if str_eq(key, "cloudflare") {
            Provider::Cloudflare
        } else if str_eq(key, "digitalocean") {
            Provider::DigitalOcean
        } else if str_eq(key, "none") {
            Provider::NoCdn
        } else {
            Provider::Other(String::from_str(key))
        }
    }
}

impl std::str::FromStr for Provider {
    type Err = std::convert::Infallible;

    fn from_str(s: &str) -> (parsed: Result<Provider, std::convert::Infallible>)
        ensures
            parsed matches Ok(provider) && provider@ == ProviderView::from_key(s@),
    {
        Ok(Provider::from_key(s))
    }
}

/// One expected file: where it belongs, what it must hold, and where each
/// provider offers it. No provider stands twice in `urls`.
#[derive(Debug)]
pub struct PatchFile {
    /// Path below the base directory, with forward slashes.
    pub path: String,
    /// Digest of the expected content, in lower-case hexadecimal.
    pub hash: String,
    /// Length of the expected content in bytes.
    pub size: i64,
    /// Marks a file that is not part of the stock distribution.
    pub custom: bool,
    /// The address of the file at each provider that has it.
    pub urls: Vec<(Provider, String)>,
}

/// An expected file as a value of the model.
pub struct PatchFileView {
    pub path: Seq<char>,
    pub hash: Seq<char>,
    pub size: int,
    pub custom: bool,
    pub urls: Seq<(ProviderView, Seq<char>)>,
}

/// The model of a list of provider addresses.
pub open spec fn urls_view(urls: Seq<(Provider, String)>) -> Seq<(ProviderView, Seq<char>)> {
    Seq::new(urls.len(), |i: int| (urls[i].0@, urls[i].1@))
}

/// The address listed for `provider`: that of the first entry for it, if
/// there is one.
pub open spec fn lookup(urls: Seq<(ProviderView, Seq<char>)>, provider: ProviderView) -> Option<
    Seq<char>,
>
    decreases urls.len(),
{
    if urls.len() == 0 {
        None
    } else if urls[0].0 == provider {
        Some(urls[0].1)
    } else {
        lookup(urls.drop_first(), provider)
    }
}

/// What a borrowed string stands for in the model, if there is one.
pub open spec fn text_of(s: Option<&String>) -> Option<Seq<char>> {
    match s {
        Some(s) => Some(s@),
        None => None,
    }
}

impl View for PatchFile {
    type V = PatchFileView;

    open spec fn view(&self) -> PatchFileView {
        PatchFileView {
            path: self.path@,
            hash: self.hash@,
            size: self.size as int,
            custom: self.custom,
            urls: urls_view(self.urls@),
        }
    }
}

impl PatchFileView {
    /// The address to download the file from when `provider` is asked for:
    /// the one listed for `provider`, else the one listed for the provider
    /// with the key `none`, else none at all.
    pub open spec fn url_for(self, provider: ProviderView) -> Option<Seq<char>> {
        match lookup(self.urls, provider) {
            Some(url) => Some(url),
            None => lookup(self.urls, ProviderView::NoCdn),
        }
    }

    /// The providers that offer the file, in the order in which they are
    /// listed.
    pub open spec fn providers(self) -> Seq<ProviderView> {
        Seq::new(self.urls.len(), |i: int| self.urls[i].0)
    }

    /// No provider is listed twice.
    pub open spec fn distinct_providers(self) -> bool {
        forall|i: int, j: int|
            0 <= i < j < self.urls.len() ==> (#[trigger] self.urls[i]).0 != (
            #[trigger] self.urls[j]).0
    }

    /// The size is a byte count and no provider is listed twice.
    pub open spec fn wf(self) -> bool {
        0 <= self.size <= i64::MAX && self.distinct_providers()
    }
}

/// Where no provider is listed twice, the address looked up for a provider
/// is the one of its only entry, wherever in the list that stands: the
/// list is read as a map.
pub proof fn lemma_lookup_reads_a_map(file: PatchFileView, provider: ProviderView, url: Seq<char>)
    requires
        file.distinct_providers(),
    ensures
        lookup(file.urls, provider) == Some(url) <==> file.urls.contains((provider, url)),
        lookup(file.urls, provider) is None <==> !file.providers().contains(provider),
    decreases file.urls.len(),
{
    let urls = file.urls;
    if urls.len() > 0 {
        let rest = PatchFileView { urls: urls.drop_first(), ..file };
        assert forall|i: int, j: int| 0 <= i < j < rest.urls.len() implies (
        #[trigger] rest.urls[i]).0 != (#[trigger] rest.urls[j]).0 by {
            assert(rest.urls[i] == urls[i + 1] && rest.urls[j] == urls[j + 1]);
        }
        lemma_lookup_reads_a_map(rest, provider, url);
        if urls[0].0 == provider {
            assert(file.providers()[0] == provider);
            if urls.contains((provider, url)) {
                let at = choose|at: int| 0 <= at < urls.len() && urls[at] == (provider, url);
                if at > 0 {
                    assert(urls[0].0 != urls[at].0);
                }
            } else if urls[0].1 == url {
                assert(urls[0] == (provider, url));
            }
        } else {
            if urls.contains((provider, url)) {
                let at = choose|at: int| 0 <= at < urls.len() && urls[at] == (provider, url);
                assert(rest.urls[at - 1] == (provider, url));
            }
            if rest.urls.contains((provider, url)) {
                let at = choose|at: int|
                    0 <= at < rest.urls.len() && rest.urls[at] == (provider, url);
                assert(urls[at + 1] == (provider, url));
            }
            if file.providers().contains(provider) {
                let at = choose|at: int|
                    0 <= at < file.providers().len() && file.providers()[at] == provider;
                assert(rest.providers()[at - 1] == provider);
            }
            if rest.providers().contains(provider) {
                let at = choose|at: int|
                    0 <= at < rest.providers().len() && rest.providers()[at] == provider;
                assert(file.providers()[at + 1] == provider);
            }
        }
    }
}

/// The address to download from is the one listed for the provider asked
/// for where there is one; where there is none it is the one listed for
/// the provider with the key `none`; and there is none where neither is
/// listed.
pub proof fn lemma_fallback(file: PatchFileView, provider: ProviderView)
    ensures
        lookup(file.urls, provider) is Some ==> file.url_for(provider) == lookup(
            file.urls,
            provider,
        ),
        lookup(file.urls, provider) is None ==> file.url_for(provider) == lookup(
            file.urls,
            ProviderView::NoCdn,
        ),
        file.url_for(provider) is None <==> lookup(file.urls, provider) is None && lookup(
            file.urls,
            ProviderView::NoCdn,
        ) is None,
        file.url_for(ProviderView::NoCdn) == lookup(file.urls, ProviderView::NoCdn),
{
}

impl Clone for PatchFile {
    fn clone(&self) -> (copy: PatchFile)
        ensures
            copy@ == self@,
    {
        let mut urls: Vec<(Provider, String)> = Vec::new();
        let mut i: usize = 0;
        while i < self.urls.len()
            invariant
                i <= self.urls.len(),
                urls@.len() == i,
                forall|j: int|
                    0 <= j < i ==> (#[trigger] urls@[j]).0@ == self.urls@[j].0@ && urls@[j].1@
                        == self.urls@[j].1@,
            decreases self.urls.len() - i,
        {
            let entry = &self.urls[i];
            urls.push((entry.0.clone(), entry.1.clone()));
            i = i + 1;
        }
        assert(urls_view(urls@) =~= urls_view(self.urls@));
        PatchFile {
            path: self.path.clone(),
            hash: self.hash.clone(),
            size: self.size,
            custom: self.custom,
            urls,
        }
    }
}

impl PatchFile {
    fn find(&self, provider: &Provider) -> (url: Option<&String>)
        ensures
            text_of(url) == lookup(self@.urls, provider@),
    {
        let mut i: usize = 0;
        assert(self@.urls.skip(0) =~= self@.urls);
        while i < self.urls.len()
            invariant
                i <= self.urls.len(),
                lookup(self@.urls, provider@) == lookup(self@.urls.skip(i as int), provider@),
            decreases self.urls.len() - i,
        {
            if self.urls[i].0 == *provider {
                return Some(&self.urls[i].1);
            }
            assert(self@.urls.skip(i as int).drop_first() == self@.urls.skip(i + 1));
            i = i + 1;
        }
        None
    }

    /// The address to download the file from when `provider` is asked for,
    /// falling back to the provider with the key `none`.
    pub fn get_url(&self, provider: &Provider) -> (url: Option<&String>)
        ensures
            text_of(url) == self@.url_for(provider@),
    {
        match self.find(provider) {
            Some(url) => Some(url),
            None => self.find(&Provider::NoCdn),
        }
    }

    /// The providers that offer the file, in the order in which they are
    /// listed.
    pub fn available_providers(&self) -> (providers: Vec<&Provider>)
        ensures
            providers@.len() == self@.providers().len(),
            forall|i: int| 0 <= i < providers@.len() ==> providers@[i]@ == self@.providers()[i],
    {
        let mut providers: Vec<&Provider> = Vec::new();
        let mut i: usize = 0;
        while i < self.urls.len()
            invariant
                i <= self.urls.len(),
                providers@.len() == i,
                forall|j: int| 0 <= j < i ==> providers@[j]@ == self@.providers()[j],
            decreases self.urls.len() - i,
        {
            providers.push(&self.urls[i].0);
            i = i + 1;
        }
        providers
    }

    /// Whether the size is a byte count and no provider is listed twice.
    pub fn is_well_formed(&self) -> (ok: bool)
        ensures
            ok == self@.wf(),
    {
        if self.size < 0 {
            return false;
        }
        let mut j: usize = 0;
        while j < self.urls.len()
            invariant
                j <= self.urls.len(),
                forall|a: int, b: int|
                    0 <= a < b < j ==> (#[trigger] self@.urls[a]).0 != (#[trigger] self@.urls[b]).0,
            decreases self.urls.len() - j,
        {
            let mut i: usize = 0;
            while i < j
                invariant
                    i <= j < self.urls.len(),
                    forall|a: int|
                        0 <= a < i ==> (#[trigger] self@.urls[a]).0 != self@.urls[j as int].0,
                decreases j - i,
            {
                if self.urls[i].0 == self.urls[j].0 {
                    assert(self@.urls[i as int].0 == self@.urls[j as int].0);
                    return false;
                }
                i = i + 1;
            }
            j = j + 1;
        }
        true
    }
}

/// What a path is after its backslashes have been turned into forward
/// slashes.
pub open spec fn normalized_path(path: Seq<char>) -> Seq<char> {
    Seq::new(path.len(), |i: int| if path[i] == '\\' { '/' } else { path[i] })
}

/// A normalised path is as long as the path, holds no backslash, and is
/// the path itself where that holds none; normalising it again changes
/// nothing.
pub proof fn lemma_normalized_path(path: Seq<char>)
    ensures
        normalized_path(path).len() == path.len(),
        !normalized_path(path).contains('\\'),
        !path.contains('\\') ==> normalized_path(path) == path,
        normalized_path(normalized_path(path)) == normalized_path(path),
{
    let normal = normalized_path(path);
    assert forall|i: int| 0 <= i < normal.len() implies normal[i] != '\\' by {}
    if !path.contains('\\') {
        assert forall|i: int| 0 <= i < path.len() implies normal[i] == path[i] by {
            assert(path.contains(path[i]));
        }
        assert(normal =~= path);
    }
    assert(normalized_path(normal) =~= normal);
}

/// Turns the backslashes of a path into forward slashes.
pub fn normalize_path(path: &str) -> (normal: String)
    ensures
        normal@ == normalized_path(path@),
{
    let mut normal = String::new();
    for c in it: path.chars()
        invariant
            it.seq() == path@,
            normal@ == normalized_path(path@.take(it.index() as int)),
    {
        push_char(&mut normal, if c == '\\' { '/' } else { c });
    }
    normal
}

/// The declared state of a file tree.
#[derive(Debug)]
pub struct Manifest {
    /// The version that the manifest describes, for display.
    pub version: String,
    /// Identifies this issue of the manifest.
    pub uid: String,
    /// The expected files, in the order in which they are declared.
    pub files: Vec<PatchFile>,
    /// Paths to delete. They are carried along and not acted on.
    pub removals: Option<Vec<String>>,
}

/// A manifest as a value of the model.
pub struct ManifestView {
    pub version: Seq<char>,
    pub uid: Seq<char>,
    pub files: Seq<PatchFileView>,
    pub removals: Option<Seq<Seq<char>>>,
}

/// The model of a list of expected files.
pub open spec fn files_view(files: Seq<PatchFile>) -> Seq<PatchFileView> {
    Seq::new(files.len(), |i: int| files[i]@)
}

/// The model of a list of strings.
pub open spec fn texts_view(texts: Seq<String>) -> Seq<Seq<char>> {
    Seq::new(texts.len(), |i: int| texts[i]@)
}

impl View for Manifest {
    type V = ManifestView;

    open spec fn view(&self) -> ManifestView {
        ManifestView {
            version: self.version@,
            uid: self.uid@,
            files: files_view(self.files@),
            removals: match self.removals {
                Some(paths) => Some(texts_view(paths@)),
                None => None,
            },
        }
    }
}

impl ManifestView {
    /// Every expected file is well formed.
    pub open spec fn wf(self) -> bool {
        forall|i: int| 0 <= i < self.files.len() ==> (#[trigger] self.files[i]).wf()
    }

    /// The same manifest with the path of every file normalised.
    pub open spec fn normalized(self) -> ManifestView {
        ManifestView {
            files: Seq::new(
                self.files.len(),
                |i: int|
                    PatchFileView { path: normalized_path(self.files[i].path), ..self.files[i] },
            ),
            ..self
        }
    }
}

fn clone_files(files: &Vec<PatchFile>) -> (copy: Vec<PatchFile>)
    ensures
        files_view(copy@) == files_view(files@),
{
    let mut copy: Vec<PatchFile> = Vec::new();
    let mut i: usize = 0;
    while i < files.len()
        invariant
            i <= files.len(),
            copy@.len() == i,
            forall|j: int| 0 <= j < i ==> (#[trigger] copy@[j])@ == files@[j]@,
        decreases files.len() - i,
    {
        copy.push(files[i].clone());
        i = i + 1;
    }
    assert(files_view(copy@) =~= files_view(files@));
    copy
}

fn clone_texts(texts: &Vec<String>) -> (copy: Vec<String>)
    ensures
        texts_view(copy@) == texts_view(texts@),
{
    let mut copy: Vec<String> = Vec::new();
    let mut i: usize = 0;
    while i < texts.len()
        invariant
            i <= texts.len(),
            copy@.len() == i,
            forall|j: int| 0 <= j < i ==> (#[trigger] copy@[j])@ == texts@[j]@,
        decreases texts.len() - i,
    {
        copy.push(texts[i].clone());
        i = i + 1;
    }
    assert(texts_view(copy@) =~= texts_view(texts@));
    copy
}

impl Clone for Manifest {
    fn clone(&self) -> (copy: Manifest)
        ensures
            copy@ == self@,
    {
        Manifest {
            version: self.version.clone(),
            uid: self.uid.clone(),
            files: clone_files(&self.files),
            removals: match &self.removals {
                Some(paths) => Some(clone_texts(paths)),
                None => None,
            },
        }
    }
}

impl Manifest {
    /// Turns the backslashes in the path of every file into forward slashes
    /// and leaves everything else as it is.
    pub fn normalize_paths(&mut self)
        ensures
            final(self)@ == old(self)@.normalized(),
    {
        let mut i: usize = 0;
        while i < self.files.len()
            invariant
                i <= self.files.len(),
                self.files.len() == old(self).files.len(),
                self.version == old(self).version,
                self.uid == old(self).uid,
                self.removals == old(self).removals,
                forall|j: int|
                    0 <= j < i ==> (#[trigger] self.files@[j])@ == old(
                        self,
                    )@.normalized().files[j],
                forall|j: int| i <= j < self.files.len() ==> self.files@[j] == old(self).files@[j],
            decreases self.files.len() - i,
        {
            let normal = normalize_path(self.files[i].path.as_str());
            self.files[i].path = normal;
            i = i + 1;
        }
        assert(self@.files =~= old(self)@.normalized().files);
    }

    /// Whether every expected file is well formed.
    pub fn is_well_formed(&self) -> (ok: bool)
        ensures
            ok == self@.wf(),
    {
        let mut i: usize = 0;
        while i < self.files.len()
            invariant
                i <= self.files.len(),
                forall|j: int| 0 <= j < i ==> (#[trigger] self@.files[j]).wf(),
            decreases self.files.len() - i,
        {
            if !self.files[i].is_well_formed() {
                assert(!self@.files[i as int].wf());
                return false;
            }
            i = i + 1;
        }
        true
    }
}

} // verus!
