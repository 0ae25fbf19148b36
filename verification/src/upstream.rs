//! Where the upstream service is asked for a show and for its episodes.

use vstd::prelude::*;

verus! {

/// How the relay names itself to upstream.
pub const USER_AGENT: &'static str = "soundsproxy/0.1";

/// The upstream address of programmes, up to what is asked of them.
pub const PROGRAMMES: &'static str = "https://rms.api.bbc.co.uk/v2/programmes/";

pub const CONTAINER_SUFFIX: &'static str = "/container";

pub const PLAYABLE_QUERY: &'static str = "playable?container=";

pub const EPISODE_FILTER: &'static str = "&sort=sequential&type=episode&experience=domestic";

/// The address of the metadata of the show `id`.
pub open spec fn container_url(id: Seq<char>) -> Seq<char> {
    PROGRAMMES@ + id + CONTAINER_SUFFIX@
}

/// The address of the episodes of the show `id`, in sequence, for listeners
/// at home.
pub open spec fn episodes_url(id: Seq<char>) -> Seq<char> {
    PROGRAMMES@ + PLAYABLE_QUERY@ + id + EPISODE_FILTER@
}

/// The address to ask for the metadata of the show `id`; the identifier goes
/// in as it is.
pub fn pod_info_url(id: &str) -> (url: String)
    ensures
        url@ == container_url(id@),
{
    let mut url = String::from_str(PROGRAMMES);
    url.append(id);
    url.append(CONTAINER_SUFFIX);
    url
}

/// The address to ask for the episodes of the show `id`; the identifier goes
/// in as it is.
pub fn pod_episodes_url(id: &str) -> (url: String)
    ensures
        url@ == episodes_url(id@),
{
    let mut url = String::from_str(PROGRAMMES);
    url.append(PLAYABLE_QUERY);
    url.append(id);
    url.append(EPISODE_FILTER);
    url
}

} // verus!
