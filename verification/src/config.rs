//! The tunable parameters of a tuning run.

use vstd::prelude::*;

verus! {

/// The parameters the user sets before tuning: the probe URLs, the search
/// ranges in Mbps, the search accuracy, and where the hysteria2 client and
/// its config file live.
#[derive(Clone, Debug)]
pub struct Tunable {
    pub test_file_url: String,
    pub latency_url: String,
    pub min_up: u32,
    pub max_up: u32,
    pub min_down: u32,
    pub max_down: u32,
    pub target_accuracy: u32,
    pub hy_config: String,
    pub hy_binary: String,
    pub hy_download_url: String,
}

/// The numeric parameters of `Tunable::default`.
pub open spec fn default_numbers(t: Tunable) -> bool {
    &&& t.min_up == 10
    &&& t.max_up == 500
    &&& t.min_down == 50
    &&& t.max_down == 2000
    &&& t.target_accuracy == 10
}

/// The parameters `Tunable::default` gives.
pub open spec fn is_default(t: Tunable) -> bool {
    &&& default_numbers(t)
    &&& t.test_file_url@ == "http://cachefly.cachefly.net/100mb.test"@
    &&& t.latency_url@ == "https://www.cloudflare.com/cdn-cgi/trace"@
    &&& t.hy_config@ == "./hy/config.yaml"@
    &&& t.hy_binary@ == "./hy/hysteria"@
    &&& t.hy_download_url@ == "https://download.hysteria.network/app/latest/hysteria-linux-amd64"@
}

/// The defaults: up searched in 10..500 Mbps, down in 50..2000 Mbps, to an
/// accuracy of 10 Mbps, with the client and its config under `./hy/`.
pub proof fn lemma_defaults(t: Tunable)
    requires
        is_default(t),
    ensures
        t.min_up == 10 && t.max_up == 500,
        t.min_down == 50 && t.max_down == 2000,
        t.target_accuracy == 10,
        t.hy_config@ == "./hy/config.yaml"@,
        t.hy_binary@ == "./hy/hysteria"@,
        t.test_file_url@ == "http://cachefly.cachefly.net/100mb.test"@,
        t.latency_url@ == "https://www.cloudflare.com/cdn-cgi/trace"@,
        t.hy_download_url@ == "https://download.hysteria.network/app/latest/hysteria-linux-amd64"@,
{
}

impl Tunable {
    /// A field-by-field copy.
    pub fn snapshot(&self) -> (r: Tunable)
        ensures
            r == *self,
    {
        Tunable {
            test_file_url: self.test_file_url.clone(),
            latency_url: self.latency_url.clone(),
            min_up: self.min_up,
            max_up: self.max_up,
            min_down: self.min_down,
            max_down: self.max_down,
            target_accuracy: self.target_accuracy,
            hy_config: self.hy_config.clone(),
            hy_binary: self.hy_binary.clone(),
            hy_download_url: self.hy_download_url.clone(),
        }
    }
}

impl Default for Tunable {
    fn default() -> (r: Tunable)
        ensures
            is_default(r),
    {
        Tunable {
            test_file_url: String::from_str("http://cachefly.cachefly.net/100mb.test"),
            latency_url: String::from_str("https://www.cloudflare.com/cdn-cgi/trace"),
            min_up: 10,
            max_up: 500,
            min_down: 50,
            max_down: 2000,
            target_accuracy: 10,
            hy_config: String::from_str("./hy/config.yaml"),
            hy_binary: String::from_str("./hy/hysteria"),
            hy_download_url: String::from_str(
                "https://download.hysteria.network/app/latest/hysteria-linux-amd64",
            ),
        }
    }
}

} // verus!
