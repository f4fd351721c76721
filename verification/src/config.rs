//! The configuration that the server is started with, and how variables of
//! the environment override it.

use std::str::FromStr;
use vstd::prelude::*;
use crate::env::EnvBackend;
use crate::{same_text, text_model};

verus! {

/// The kind of cache backend.
#[derive(Debug, Clone, Copy, PartialEq, Eq, Structural)]
pub enum CacheBackendType {
    InMemory,
    FileSystem,
}

impl Default for CacheBackendType {
    fn default() -> (kind: Self)
        ensures
            kind == CacheBackendType::InMemory,
    {
        CacheBackendType::InMemory
    }
}

/// The configuration of the cache.
#[derive(Debug, Clone, Copy, PartialEq, Eq, Structural)]
pub struct CacheConfig {
    pub backend: CacheBackendType,
}

impl Default for CacheConfig {
    fn default() -> (config: Self)
        ensures
            config.backend == CacheBackendType::InMemory,
    {
        CacheConfig { backend: CacheBackendType::InMemory }
    }
}

/// How much the server logs.
#[derive(Debug, Clone, Copy, PartialEq, Eq, Structural)]
pub enum LogLevel {
    Trace,
    Debug,
    Info,
    Warn,
    Error,
}

/// The mathematical value of a [`Host`].
pub enum HostModel {
    Domain(Seq<char>),
    Ipv4(Seq<u8>),
    Ipv6(Seq<u16>),
}

/// The host that the server listens on: a domain name, or an address given
/// by its four octets or its eight segments.
#[derive(Debug, Clone, PartialEq, Eq)]
pub enum Host {
    Domain(String),
    Ipv4([u8; 4]),
    Ipv6([u16; 8]),
}

impl View for Host {
    type V = HostModel;

    open spec fn view(&self) -> HostModel {
        match self {
            Host::Domain(name) => HostModel::Domain(name@),
            Host::Ipv4(octets) => HostModel::Ipv4(octets@),
            Host::Ipv6(segments) => HostModel::Ipv6(segments@),
        }
    }
}

/// The mathematical value of an [`ImageSource`].
pub enum SourceModel {
    Url(Seq<char>),
    Path(Seq<char>),
}

/// Where images come from: the text of an absolute URL, or the text of a
/// canonical path to a file or a directory.
#[derive(Debug, Clone, PartialEq, Eq)]
pub enum ImageSource {
    Url(String),
    Path(String),
}

impl View for ImageSource {
    type V = SourceModel;

    open spec fn view(&self) -> SourceModel {
        match self {
            ImageSource::Url(text) => SourceModel::Url(text@),
            ImageSource::Path(text) => SourceModel::Path(text@),
        }
    }
}

/// The port that the server listens on unless told otherwise.
pub fn default_port() -> (port: u16)
    ensures
        port == 3000,
{
    3000
}

/// The host that the server listens on unless told otherwise: the loopback
/// address.
pub fn default_host() -> (host: Host)
    ensures
        host@ == HostModel::Ipv4(seq![127u8, 0u8, 0u8, 1u8]),
{
    let octets: [u8; 4] = [127, 0, 0, 1];
    proof {
        assert(octets@ =~= seq![127u8, 0u8, 0u8, 1u8]);
    }
    Host::Ipv4(octets)
}

/// How much the server logs unless told otherwise.
pub fn default_log_level() -> (level: LogLevel)
    ensures
        level == LogLevel::Info,
{
    LogLevel::Info
}

/// The mathematical value of a [`ServerConfig`].
pub struct ServerModel {
    pub port: u16,
    pub host: HostModel,
    pub log_level: LogLevel,
    pub sources: Seq<SourceModel>,
}

/// The views of a sequence of sources.
pub open spec fn sources_model(sources: Seq<ImageSource>) -> Seq<SourceModel> {
    sources.map_values(|source: ImageSource| source@)
}

/// Where the server listens, how much it logs and where its images come
/// from.
#[derive(Debug, Clone, PartialEq, Eq)]
pub struct ServerConfig {
    pub port: u16,
    pub host: Host,
    pub log_level: LogLevel,
    pub sources: Vec<ImageSource>,
}

impl View for ServerConfig {
    type V = ServerModel;

    open spec fn view(&self) -> ServerModel {
        ServerModel {
            port: self.port,
            host: self.host@,
            log_level: self.log_level,
            sources: sources_model(self.sources@),
        }
    }
}

impl Default for ServerConfig {
    fn default() -> (config: Self)
        ensures
            config@ == (ServerModel {
                port: 3000,
                host: HostModel::Ipv4(seq![127u8, 0u8, 0u8, 1u8]),
                log_level: LogLevel::Info,
                sources: Seq::empty(),
            }),
    {
        let config = ServerConfig {
            port: default_port(),
            host: default_host(),
            log_level: default_log_level(),
            sources: Vec::new(),
        };
        proof {
            assert(sources_model(config.sources@) =~= Seq::<SourceModel>::empty());
        }
        config
    }
}

/// The mathematical value of a [`Config`].
pub struct ConfigModel {
    pub server: ServerModel,
    pub cache: CacheConfig,
}

/// Configuration structure for the server
#[derive(Debug, Clone, PartialEq, Eq)]
pub struct Config {
    pub server: ServerConfig,
    pub cache: CacheConfig,
}

impl View for Config {
    type V = ConfigModel;

    open spec fn view(&self) -> ConfigModel {
        ConfigModel { server: self.server@, cache: self.cache }
    }
}

impl Default for Config {
    fn default() -> (config: Self)
        ensures
            config@ == (ConfigModel {
                server: ServerModel {
                    port: 3000,
                    host: HostModel::Ipv4(seq![127u8, 0u8, 0u8, 1u8]),
                    log_level: LogLevel::Info,
                    sources: Seq::empty(),
                },
                cache: CacheConfig { backend: CacheBackendType::InMemory },
            }),
    {
        Config { server: ServerConfig::default(), cache: CacheConfig::default() }
    }
}

/// The port that a text denotes, as `u16`'s `FromStr` of std reads it.
pub uninterp spec fn port_of(text: Seq<char>) -> Option<u16>;

/// `u16::from_str` of std: the number that a decimal text denotes, if it
/// denotes one that fits. The result depends on the text alone.
#[verifier::external_body]
fn parse_port(text: &str) -> (port: Option<u16>)
    ensures
        port == port_of(text@),
{
    match u16::from_str(text) {
        Ok(port) => Some(port),
        Err(_) => None,
    }
}

/// The host that a text denotes, as `Host::parse` of the url crate reads it.
pub uninterp spec fn host_of(text: Seq<char>) -> Option<HostModel>;

/// The mathematical value of a host that may be absent.
pub open spec fn host_model(host: Option<Host>) -> Option<HostModel> {
    match host {
        Some(host) => Some(host@),
        None => None,
    }
}

/// `Host::parse` of the url crate: an address in brackets is read as IPv6,
/// anything else is decoded and normalised as a domain, which is then read
/// as IPv4 where it ends in a number. The result depends on the text alone.
#[verifier::external_body]
fn parse_host(text: &str) -> (host: Option<Host>)
    ensures
        host_model(host) == host_of(text@),
{
    match url::Host::parse(text) {
        Ok(url::Host::Domain(name)) => Some(Host::Domain(name)),
        Ok(url::Host::Ipv4(address)) => Some(Host::Ipv4(address.octets())),
        Ok(url::Host::Ipv6(address)) => Some(Host::Ipv6(address.segments())),
        Err(_) => None,
    }
}

/// The level that a text denotes, as `Level`'s `FromStr` of the tracing
/// crate reads it.
pub uninterp spec fn level_of(text: Seq<char>) -> Option<LogLevel>;

/// `Level::from_str` of the tracing crate: a level's name in any case, or
/// its number from 1 (error) to 5 (trace). The result depends on the text
/// alone.
#[verifier::external_body]
fn parse_level(text: &str) -> (level: Option<LogLevel>)
    ensures
        level == level_of(text@),
{
    match tracing::Level::from_str(text) {
        Ok(tracing::Level::TRACE) => Some(LogLevel::Trace),
        Ok(tracing::Level::DEBUG) => Some(LogLevel::Debug),
        Ok(tracing::Level::INFO) => Some(LogLevel::Info),
        Ok(tracing::Level::WARN) => Some(LogLevel::Warn),
        Ok(tracing::Level::ERROR) => Some(LogLevel::Error),
        Err(_) => None,
    }
}

/// The serialisation of the URL that a text denotes, as `Url::parse` of the
/// url crate reads it.
pub uninterp spec fn url_of(text: Seq<char>) -> Option<Seq<char>>;

/// `Url::parse` of the url crate, followed by the URL's serialisation: the
/// text is read as an absolute URL and written back in normal form. Two URLs
/// are equal exactly when their serialisations are. The result depends on
/// the text alone.
#[verifier::external_body]
fn parse_url(text: &str) -> (url: Option<String>)
    ensures
        text_model(url) == url_of(text@),
{
    match url::Url::parse(text) {
        Ok(url) => Some(String::from(url)),
        Err(_) => None,
    }
}

/// The lower-case form of a text, as `str::to_lowercase` of std gives it.
pub uninterp spec fn lowercase_of(text: Seq<char>) -> Seq<char>;

/// `str::to_lowercase` of std. The result depends on the text alone.
#[verifier::external_body]
fn lowercase(text: &str) -> (lower: String)
    ensures
        lower@ == lowercase_of(text@),
{
    text.to_lowercase()
}

/// The kind of backend that a name in lower case denotes.
pub open spec fn backend_named(name: Seq<char>) -> Option<CacheBackendType> {
    if name == "in_memory"@ {
        Some(CacheBackendType::InMemory)
    } else if name == "file_system"@ {
        Some(CacheBackendType::FileSystem)
    } else {
        None
    }
}

impl CacheBackendType {
    /// The kind of backend that `name` denotes, where `name` is in lower
    /// case: `in_memory` or `file_system`.
    pub fn from_name(name: &str) -> (kind: Option<CacheBackendType>)
        ensures
            kind == backend_named(name@),
    {
        if same_text(name, "in_memory") {
            Some(CacheBackendType::InMemory)
        } else if same_text(name, "file_system") {
            Some(CacheBackendType::FileSystem)
        } else {
            None
        }
    }

    /// The kind of backend that `text` denotes, whatever its case. The error
    /// is a sentence that quotes the text.
    pub fn from_str(text: &str) -> (kind: Result<CacheBackendType, String>)
        ensures
            match kind {
                Ok(kind) => backend_named(lowercase_of(text@)) == Some(kind),
                Err(message) => backend_named(lowercase_of(text@)) is None && message@
                    == "Unknown cache backend type: "@ + text@,
            },
    {
        let lower = lowercase(text);
        match CacheBackendType::from_name(lower.as_str()) {
            Some(kind) => Ok(kind),
            None => Err("Unknown cache backend type: ".to_string().concat(text)),
        }
    }
}

/// The source that a text denotes: a URL where the text reads as one, else a
/// path where something exists there, `canonical` being that path's
/// canonical form.
pub open spec fn source_of(text: Seq<char>, canonical: Option<Seq<char>>) -> Option<SourceModel> {
    match url_of(text) {
        Some(url) => Some(SourceModel::Url(url)),
        None => match canonical {
            Some(path) => Some(SourceModel::Path(path)),
            None => None,
        },
    }
}

/// The source that a URL's serialisation or a path's canonical form makes.
pub open spec fn source_from(url: Option<Seq<char>>, canonical: Option<Seq<char>>) -> Option<
    SourceModel,
> {
    match url {
        Some(url) => Some(SourceModel::Url(url)),
        None => match canonical {
            Some(path) => Some(SourceModel::Path(path)),
            None => None,
        },
    }
}

/// The mathematical value of a source that may be absent.
pub open spec fn source_model(source: Option<ImageSource>) -> Option<SourceModel> {
    match source {
        Some(source) => Some(source@),
        None => None,
    }
}

impl ImageSource {
    /// The source that a URL's serialisation makes, or else the canonical
    /// form of a path.
    pub fn from_parts(url: Option<String>, canonical: Option<String>) -> (source: Option<
        ImageSource,
    >)
        ensures
            source_model(source) == source_from(text_model(url), text_model(canonical)),
    {
        match url {
            Some(url) => Some(ImageSource::Url(url)),
            None => match canonical {
                Some(path) => Some(ImageSource::Path(path)),
                None => None,
            },
        }
    }

    /// The source that `text` denotes. The caller has looked at the disk:
    /// `canonical` is the canonical form of the path `text`, if something
    /// exists there. A text that reads as a URL is a URL whatever is on the
    /// disk.
    pub fn resolve(text: &str, canonical: Option<String>) -> (source: Option<ImageSource>)
        ensures
            source_model(source) == source_of(text@, text_model(canonical)),
    {
        ImageSource::from_parts(parse_url(text), canonical)
    }
}

/// The pieces of a text between its commas. A text without a comma is one
/// piece; an empty text is one empty piece.
pub open spec fn split_commas(text: Seq<char>) -> Seq<Seq<char>>
    decreases text.len(),
{
    if text.len() == 0 {
        seq![Seq::<char>::empty()]
    } else {
        let head = split_commas(text.drop_last());
        if text.last() == ',' {
            head.push(Seq::<char>::empty())
        } else {
            head.drop_last().push(head.last().push(text.last()))
        }
    }
}

/// A text is never split into nothing.
pub proof fn lemma_split_commas_nonempty(text: Seq<char>)
    ensures
        split_commas(text).len() >= 1,
    decreases text.len(),
{
    if text.len() > 0 {
        lemma_split_commas_nonempty(text.drop_last());
    }
}

/// The views of a sequence of texts.
pub open spec fn pieces_model(pieces: Seq<String>) -> Seq<Seq<char>> {
    pieces.map_values(|piece: String| piece@)
}

/// Splits a text at its commas.
pub fn split_at_commas(text: &str) -> (pieces: Vec<String>)
    ensures
        pieces_model(pieces@) == split_commas(text@),
        pieces@.len() >= 1,
{
    let length = text.unicode_len();
    let mut pieces: Vec<String> = Vec::new();
    let mut start: usize = 0;
    let mut seen: usize = 0;
    proof {
        assert(text@.take(0) == Seq::<char>::empty());
        assert(pieces_model(pieces@).push(text@.subrange(0, 0)) == seq![Seq::<char>::empty()]);
    }
    for c in it: text.chars()
        invariant
            it.seq() == text@,
            length == text@.len(),
            seen == it.index(),
            start <= seen <= length,
            split_commas(text@.take(seen as int)) == pieces_model(pieces@).push(
                text@.subrange(start as int, seen as int),
            ),
    {
        let ghost before = pieces_model(pieces@);
        let ghost current = text@.subrange(start as int, seen as int);
        proof {
            let longer = text@.take(seen + 1);
            assert(longer.drop_last() == text@.take(seen as int));
            assert(longer.last() == c);
            assert(before.push(current).drop_last() == before);
            assert(before.push(current).last() == current);
            assert(current.push(c) == text@.subrange(start as int, seen + 1));
        }
        if c == ',' {
            pieces.push(text.substring_char(start, seen).to_string());
            proof {
                assert(pieces_model(pieces@) == before.push(current));
                assert(text@.subrange(seen + 1, seen + 1) == Seq::<char>::empty());
            }
            start = seen + 1;
        }
        seen = seen + 1;
    }
    proof {
        assert(text@.take(seen as int) == text@);
        lemma_split_commas_nonempty(text@);
    }
    let ghost before = pieces_model(pieces@);
    pieces.push(text.substring_char(start, seen).to_string());
    proof {
        assert(pieces_model(pieces@) == before.push(text@.subrange(start as int, seen as int)));
    }
    pieces
}

/// The canonical form that the caller found for the piece at position `i`:
/// none where it found nothing, or gave no answer for that position.
pub open spec fn canonical_at(canonical: Seq<Option<Seq<char>>>, i: int) -> Option<Seq<char>> {
    if 0 <= i < canonical.len() {
        canonical[i]
    } else {
        None
    }
}

/// The sources that a list of texts denotes: each text must denote one.
pub open spec fn sources_of(pieces: Seq<Seq<char>>, canonical: Seq<Option<Seq<char>>>) -> Option<
    Seq<SourceModel>,
> {
    if forall|i: int|
        0 <= i < pieces.len() ==> (#[trigger] source_of(pieces[i], canonical_at(canonical, i)))
            is Some {
        Some(
            Seq::new(
                pieces.len(),
                |i: int| source_of(pieces[i], canonical_at(canonical, i))->Some_0,
            ),
        )
    } else {
        None
    }
}

/// The views of a sequence of canonical forms.
pub open spec fn canonical_model(canonical: Seq<Option<String>>) -> Seq<Option<Seq<char>>> {
    canonical.map_values(|path: Option<String>| text_model(path))
}

/// The mathematical value of a list of sources that may be absent.
pub open spec fn source_list_model(sources: Option<Vec<ImageSource>>) -> Option<Seq<SourceModel>> {
    match sources {
        Some(sources) => Some(sources_model(sources@)),
        None => None,
    }
}

/// Reads a comma-separated list of sources. The caller has looked at the
/// disk: `canonical` holds, for each piece of the list in order, the
/// canonical form of the path that the piece names, if something exists
/// there. One piece that denotes no source fails the whole list.
pub fn parse_sources(text: &str, canonical: &Vec<Option<String>>) -> (sources: Option<
    Vec<ImageSource>,
>)
    ensures
        source_list_model(sources) == sources_of(
            split_commas(text@),
            canonical_model(canonical@),
        ),
{
    let pieces = split_at_commas(text);
    let ghost texts = split_commas(text@);
    let ghost found = canonical_model(canonical@);
    let mut sources: Vec<ImageSource> = Vec::new();
    let mut i: usize = 0;
    while i < pieces.len()
        invariant
            i <= pieces@.len(),
            texts == pieces_model(pieces@),
            texts == split_commas(text@),
            found == canonical_model(canonical@),
            sources@.len() == i,
            forall|j: int|
                0 <= j < i ==> (#[trigger] source_of(texts[j], canonical_at(found, j))) == Some(
                    sources@[j]@,
                ),
        decreases pieces@.len() - i,
    {
        let path = if i < canonical.len() {
            canonical[i].clone()
        } else {
            None
        };
        proof {
            assert(text_model(path) == canonical_at(found, i as int));
            assert(texts[i as int] == pieces@[i as int]@);
        }
        match ImageSource::resolve(pieces[i].as_str(), path) {
            Some(source) => {
                sources.push(source);
            },
            None => {
                proof {
                    assert(source_of(texts[i as int], canonical_at(found, i as int)) is None);
                }
                return None;
            },
        }
        i += 1;
    }
    proof {
        assert(sources_model(sources@) =~= sources_of(texts, found)->Some_0);
    }
    Some(sources)
}

/// The sources that a list of texts yields when the texts that denote none
/// are passed over.
pub open spec fn valid_sources(texts: Seq<Seq<char>>, canonical: Seq<Option<Seq<char>>>) -> Seq<
    SourceModel,
>
    decreases texts.len(),
{
    if texts.len() == 0 {
        Seq::empty()
    } else {
        let head = valid_sources(texts.drop_last(), canonical);
        match source_of(texts.last(), canonical_at(canonical, texts.len() - 1)) {
            Some(source) => head.push(source),
            None => head,
        }
    }
}

/// Reads a list of sources as a configuration file gives it. The caller has
/// looked at the disk: `canonical` holds, for each text in order, the
/// canonical form of the path that the text names, if something exists
/// there. A text that denotes no source is passed over; a list that leaves
/// no source at all is refused.
pub fn keep_valid_sources(texts: &Vec<String>, canonical: &Vec<Option<String>>) -> (sources:
    Option<Vec<ImageSource>>)
    ensures
        match sources {
            Some(sources) => sources@.len() > 0 && sources_model(sources@) == valid_sources(
                pieces_model(texts@),
                canonical_model(canonical@),
            ),
            None => valid_sources(pieces_model(texts@), canonical_model(canonical@)).len() == 0,
        },
{
    let ghost given = pieces_model(texts@);
    let ghost found = canonical_model(canonical@);
    let mut sources: Vec<ImageSource> = Vec::new();
    let mut i: usize = 0;
    proof {
        assert(given.take(0) == Seq::<Seq<char>>::empty());
        assert(sources_model(sources@) == Seq::<SourceModel>::empty());
    }
    while i < texts.len()
        invariant
            i <= texts@.len(),
            given == pieces_model(texts@),
            found == canonical_model(canonical@),
            sources_model(sources@) == valid_sources(given.take(i as int), found),
        decreases texts@.len() - i,
    {
        let path = if i < canonical.len() {
            canonical[i].clone()
        } else {
            None
        };
        let ghost before = sources_model(sources@);
        proof {
            let longer = given.take(i + 1);
            assert(longer.drop_last() == given.take(i as int));
            assert(longer.last() == texts@[i as int]@);
            assert(text_model(path) == canonical_at(found, i as int));
        }
        match ImageSource::resolve(texts[i].as_str(), path) {
            Some(source) => {
                sources.push(source);
                proof {
                    assert(sources_model(sources@) == before.push(source@));
                }
            },
            None => {},
        }
        i += 1;
    }
    proof {
        assert(given.take(i as int) == given);
    }
    if sources.len() == 0 {
        None
    } else {
        Some(sources)
    }
}

/// The variables that override the configuration.
#[derive(Debug, Clone, Copy, PartialEq, Eq, Structural)]
pub enum Variable {
    Port,
    Host,
    LogLevel,
    Sources,
    CacheBackend,
}

/// The name of a variable in the environment.
pub open spec fn variable_name(variable: Variable) -> Seq<char> {
    match variable {
        Variable::Port => "RANDOM_IMAGE_SERVER_PORT"@,
        Variable::Host => "RANDOM_IMAGE_SERVER_HOST"@,
        Variable::LogLevel => "RANDOM_IMAGE_SERVER_LOG_LEVEL"@,
        Variable::Sources => "RANDOM_IMAGE_SERVER_SOURCES"@,
        Variable::CacheBackend => "RANDOM_IMAGE_SERVER_CACHE_BACKEND"@,
    }
}

/// The name by which messages call a variable.
pub open spec fn variable_label(variable: Variable) -> Seq<char> {
    match variable {
        Variable::Port => "PORT"@,
        Variable::Host => "HOST"@,
        Variable::LogLevel => "LOG_LEVEL"@,
        Variable::Sources => "SOURCES"@,
        Variable::CacheBackend => "CACHE_BACKEND"@,
    }
}

impl Variable {
    /// The name of the variable in the environment.
    pub fn name(&self) -> (name: &'static str)
        ensures
            name@ == variable_name(*self),
    {
        match self {
            Variable::Port => "RANDOM_IMAGE_SERVER_PORT",
            Variable::Host => "RANDOM_IMAGE_SERVER_HOST",
            Variable::LogLevel => "RANDOM_IMAGE_SERVER_LOG_LEVEL",
            Variable::Sources => "RANDOM_IMAGE_SERVER_SOURCES",
            Variable::CacheBackend => "RANDOM_IMAGE_SERVER_CACHE_BACKEND",
        }
    }

    /// The name by which messages call the variable.
    pub fn label(&self) -> (label: &'static str)
        ensures
            label@ == variable_label(*self),
    {
        match self {
            Variable::Port => "PORT",
            Variable::Host => "HOST",
            Variable::LogLevel => "LOG_LEVEL",
            Variable::Sources => "SOURCES",
            Variable::CacheBackend => "CACHE_BACKEND",
        }
    }
}

/// The mathematical value of a [`ConfigError`].
pub struct ConfigErrorModel {
    pub variable: Variable,
    pub value: Seq<char>,
}

/// A variable of the environment holds a value that cannot be read.
#[derive(Debug, Clone, PartialEq, Eq)]
pub struct ConfigError {
    pub variable: Variable,
    pub value: String,
}

impl View for ConfigError {
    type V = ConfigErrorModel;

    open spec fn view(&self) -> ConfigErrorModel {
        ConfigErrorModel { variable: self.variable, value: self.value@ }
    }
}

impl ConfigError {
    /// The error as a sentence.
    pub fn message(&self) -> (text: String)
        ensures
            text@ == "Failed to parse environment variable '"@ + variable_label(self.variable)
                + "': "@ + self.value@,
    {
        "Failed to parse environment variable '".to_string().concat(self.variable.label()).concat(
            "': ",
        ).concat(self.value.as_str())
    }
}

/// The mathematical value of an [`Overrides`].
pub struct OverridesModel {
    pub port: Option<Seq<char>>,
    pub host: Option<Seq<char>>,
    pub log_level: Option<Seq<char>>,
    pub sources: Option<Seq<char>>,
    pub cache_backend: Option<Seq<char>>,
}

/// The values of the variables that override the configuration, each as the
/// environment gave it, or nothing where the variable is not set.
#[derive(Debug, Clone, PartialEq, Eq)]
pub struct Overrides {
    pub port: Option<String>,
    pub host: Option<String>,
    pub log_level: Option<String>,
    pub sources: Option<String>,
    pub cache_backend: Option<String>,
}

impl View for Overrides {
    type V = OverridesModel;

    open spec fn view(&self) -> OverridesModel {
        OverridesModel {
            port: text_model(self.port),
            host: text_model(self.host),
            log_level: text_model(self.log_level),
            sources: text_model(self.sources),
            cache_backend: text_model(self.cache_backend),
        }
    }
}

/// The configuration that results when the variables that are set override
/// `config`, or the first variable, in the order port, host, log level,
/// sources, cache backend, whose value cannot be read.
pub open spec fn overridden(
    config: ConfigModel,
    overrides: OverridesModel,
    canonical: Seq<Option<Seq<char>>>,
) -> Result<ConfigModel, ConfigErrorModel> {
    let port = overrides.port;
    let host = overrides.host;
    let level = overrides.log_level;
    let sources = overrides.sources;
    let backend = overrides.cache_backend;
    if port is Some && port_of(port->Some_0) is None {
        Err(ConfigErrorModel { variable: Variable::Port, value: port->Some_0 })
    } else if host is Some && host_of(host->Some_0) is None {
        Err(ConfigErrorModel { variable: Variable::Host, value: host->Some_0 })
    } else if level is Some && level_of(level->Some_0) is None {
        Err(ConfigErrorModel { variable: Variable::LogLevel, value: level->Some_0 })
    } else if sources is Some && sources_of(split_commas(sources->Some_0), canonical) is None {
        Err(ConfigErrorModel { variable: Variable::Sources, value: sources->Some_0 })
    } else if backend is Some && backend_named(lowercase_of(backend->Some_0)) is None {
        Err(ConfigErrorModel { variable: Variable::CacheBackend, value: backend->Some_0 })
    } else {
        Ok(
            ConfigModel {
                server: ServerModel {
                    port: if port is Some {
                        port_of(port->Some_0)->Some_0
                    } else {
                        config.server.port
                    },
                    host: if host is Some {
                        host_of(host->Some_0)->Some_0
                    } else {
                        config.server.host
                    },
                    log_level: if level is Some {
                        level_of(level->Some_0)->Some_0
                    } else {
                        config.server.log_level
                    },
                    sources: if sources is Some {
                        sources_of(split_commas(sources->Some_0), canonical)->Some_0
                    } else {
                        config.server.sources
                    },
                },
                cache: CacheConfig {
                    backend: if backend is Some {
                        backend_named(lowercase_of(backend->Some_0))->Some_0
                    } else {
                        config.cache.backend
                    },
                },
            },
        )
    }
}

/// The mathematical value of a configuration that may have been refused.
pub open spec fn config_model(config: Result<Config, ConfigError>) -> Result<
    ConfigModel,
    ConfigErrorModel,
> {
    match config {
        Ok(config) => Ok(config@),
        Err(error) => Err(error@),
    }
}

impl Overrides {
    /// Whether these values are what reads of the five variables from `env`
    /// may give.
    pub open spec fn read_from<E: EnvBackend>(overrides: OverridesModel, env: &E) -> bool {
        &&& env.reads(variable_name(Variable::Port), overrides.port)
        &&& env.reads(variable_name(Variable::Host), overrides.host)
        &&& env.reads(variable_name(Variable::LogLevel), overrides.log_level)
        &&& env.reads(variable_name(Variable::Sources), overrides.sources)
        &&& env.reads(variable_name(Variable::CacheBackend), overrides.cache_backend)
    }

    /// Reads the five variables from `env`, each once.
    pub fn read<E: EnvBackend>(env: &E) -> (overrides: Overrides)
        ensures
            Overrides::read_from(overrides@, env),
    {
        Overrides {
            port: env.var(Variable::Port.name()),
            host: env.var(Variable::Host.name()),
            log_level: env.var(Variable::LogLevel.name()),
            sources: env.var(Variable::Sources.name()),
            cache_backend: env.var(Variable::CacheBackend.name()),
        }
    }

    /// The texts whose paths the caller has to look up on the disk before
    /// the overrides are applied: the pieces of the sources variable, or
    /// nothing where that variable is not set.
    pub fn source_texts(&self) -> (texts: Vec<String>)
        ensures
            pieces_model(texts@) == match self@.sources {
                Some(value) => split_commas(value),
                None => Seq::empty(),
            },
    {
        match &self.sources {
            Some(value) => split_at_commas(value.as_str()),
            None => {
                let texts: Vec<String> = Vec::new();
                proof {
                    assert(pieces_model(texts@) == Seq::<Seq<char>>::empty());
                }
                texts
            },
        }
    }
}

impl Config {
    /// The configuration with the variables that are set in place of its
    /// fields: the port, the host, the log level, the sources (a
    /// comma-separated list of URLs and paths) and the cache backend
    /// (`in_memory` or `file_system`, in any case). A variable that is not
    /// set leaves its field as it is; the first variable that cannot be read
    /// is the error. The caller has looked at the disk: `canonical` holds,
    /// for each piece of the sources variable in order, the canonical form of
    /// the path that the piece names, if something exists there.
    pub fn overridden_by(self, overrides: Overrides, canonical: &Vec<Option<String>>) -> (config:
        Result<Config, ConfigError>)
        ensures
            config_model(config) == overridden(self@, overrides@, canonical_model(canonical@)),
    {
        let mut config = self;
        if let Some(value) = overrides.port {
            match parse_port(value.as_str()) {
                Some(port) => {
                    config.server.port = port;
                },
                None => {
                    return Err(ConfigError { variable: Variable::Port, value });
                },
            }
        }
        if let Some(value) = overrides.host {
            match parse_host(value.as_str()) {
                Some(host) => {
                    config.server.host = host;
                },
                None => {
                    return Err(ConfigError { variable: Variable::Host, value });
                },
            }
        }
        if let Some(value) = overrides.log_level {
            match parse_level(value.as_str()) {
                Some(level) => {
                    config.server.log_level = level;
                },
                None => {
                    return Err(ConfigError { variable: Variable::LogLevel, value });
                },
            }
        }
        if let Some(value) = overrides.sources {
            match parse_sources(value.as_str(), canonical) {
                Some(sources) => {
                    config.server.sources = sources;
                },
                None => {
                    return Err(ConfigError { variable: Variable::Sources, value });
                },
            }
        }
        if let Some(value) = overrides.cache_backend {
            match CacheBackendType::from_str(value.as_str()) {
                Ok(kind) => {
                    config.cache.backend = kind;
                },
                Err(_) => {
                    return Err(ConfigError { variable: Variable::CacheBackend, value });
                },
            }
        }
        Ok(config)
    }

    /// Create a new configuration, with it's values updated from environment
    /// variables.
    ///
    /// The variables are `RANDOM_IMAGE_SERVER_PORT`, `_HOST`, `_LOG_LEVEL`,
    /// `_SOURCES` and `_CACHE_BACKEND`. They are read from `env` once, and
    /// applied as [`Config::overridden_by`] says, whatever they hold.
    pub fn with_env_backend<E: EnvBackend>(
        self,
        env: &E,
        canonical: &Vec<Option<String>>,
    ) -> (config: Result<Config, ConfigError>)
        ensures
            exists|read: OverridesModel|
                Overrides::read_from(read, env) && config_model(config) == #[trigger] overridden(
                    self@,
                    read,
                    canonical_model(canonical@),
                ),
    {
        let overrides = Overrides::read(env);
        let ghost read = overrides@;
        let config = self.overridden_by(overrides, canonical);
        proof {
            assert(config_model(config) == overridden(self@, read, canonical_model(canonical@)));
        }
        config
    }
}

} // verus!
