//! How the browser is set up for a run.

use crate::download::DownloadArgs;
use crate::text::optional_string;
use vstd::prelude::*;
use vstd::string::StringExecFns;

verus! {

/// The site that is visited where no song says otherwise.
pub const DEFAULT_DOMAIN: &'static str = "www.karaoke-version.com";

/// What every address of the site begins with, before the domain.
pub const SCHEME_PREFIX: &'static str = "https://";

/// The width of the browser window.
pub const WINDOW_WIDTH: u32 = 1440;

/// The height of the browser window.
pub const WINDOW_HEIGHT: u32 = 1200;

/// The browser waits this many seconds for an element by default.
pub const ELEMENT_TIMEOUT_SECS: u64 = 30;

/// How the browser is set up.
pub struct Config {
    /// The domain of the site.
    pub domain: String,
    /// Whether the browser runs without a window.
    pub headless: bool,
    /// The directory in which downloads land; the default one if `None`.
    pub download_path: Option<String>,
}

/// The mathematical content of a browser setup.
pub struct ConfigView {
    pub domain: Seq<char>,
    pub headless: bool,
    pub download_path: Option<Seq<char>>,
}

impl View for Config {
    type V = ConfigView;

    open spec fn view(&self) -> ConfigView {
        ConfigView {
            domain: self.domain@,
            headless: self.headless,
            download_path: optional_string(self.download_path),
        }
    }
}

impl Default for Config {
    /// The setup for the default site, with a window, with the default
    /// download directory.
    fn default() -> (config: Config)
        ensures
            config@ == (ConfigView {
                domain: DEFAULT_DOMAIN@,
                headless: false,
                download_path: None,
            }),
    {
        Config { domain: DEFAULT_DOMAIN.to_owned(), headless: false, download_path: None }
    }
}

/// The host of an address, as `url::Url::parse` followed by
/// `url::Url::host_str` gives it; `None` where the text is no absolute
/// address or the address has no host.
pub uninterp spec fn url_host(url: Seq<char>) -> Option<Seq<char>>;

/// The host of an address: `url::Url::parse`, then `url::Url::host_str` on
/// what was parsed. The result is `None` where the text cannot be parsed as
/// an absolute address and where the address has no host.
#[verifier::external_body]
fn extract_domain_from_url(url: &str) -> (domain: Option<String>)
    ensures
        optional_string(domain) == url_host(url@),
{
    match url::Url::parse(url) {
        Ok(parsed) => match parsed.host_str() {
            Some(host) => Some(host.to_string()),
            None => None,
        },
        Err(_) => None,
    }
}

/// The setup for the site `domain` as `args` ask for it.
pub open spec fn config_for(domain: Option<Seq<char>>, args: DownloadArgs) -> Option<ConfigView> {
    match domain {
        Some(domain) => Some(
            ConfigView {
                domain,
                headless: args.headless,
                download_path: optional_string(args.download_path),
            },
        ),
        None => None,
    }
}

/// The content of an optional setup.
pub open spec fn optional_config(config: Option<Config>) -> Option<ConfigView> {
    match config {
        Some(c) => Some(c@),
        None => None,
    }
}

impl Config {
    /// The setup for the site `domain` as `args` ask for it; none where
    /// there is no domain.
    pub fn with_domain(domain: Option<String>, args: &DownloadArgs) -> (config: Option<Config>)
        ensures
            optional_config(config) == config_for(optional_string(domain), *args),
    {
        match domain {
            Some(domain) => Some(
                Config {
                    domain,
                    headless: args.headless,
                    download_path: args.download_path.clone(),
                },
            ),
            None => None,
        }
    }

    /// The setup for the site of the song that `args` name; none where the
    /// address of the song has no host.
    pub fn for_args(args: &DownloadArgs) -> (config: Option<Config>)
        ensures
            optional_config(config) == config_for(url_host(args.song_url@), *args),
    {
        Config::with_domain(extract_domain_from_url(args.song_url.as_str()), args)
    }

    /// The address of the front page of the site.
    pub fn home_url(&self) -> (url: String)
        ensures
            url@ == SCHEME_PREFIX@ + self.domain@,
    {
        SCHEME_PREFIX.to_owned().concat(self.domain.as_str())
    }
}

} // verus!
