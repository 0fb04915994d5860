//! What one run is told to do, and the check that it can be done before any
//! request is made.

use crate::channels::ChannelMap;
use crate::client::{usable_base, Api, ApiModel};
use vstd::prelude::*;

verus! {

/// The settings of one run.
#[derive(Debug, Clone, PartialEq)]
pub struct Config {
    pub source_url: String,
    pub source_api_key: String,
    pub destination_url: String,
    pub destination_api_key: String,
    /// The stable identifiers of the dashboards to copy, in the order of copying.
    pub dashboards: Vec<String>,
    /// Pairs of a source channel and the destination channel that stands for
    /// it; empty where no mapping is configured. Of two pairs with the same
    /// source channel the later one counts.
    pub notification_map: Vec<(String, String)>,
}

/// Why the settings cannot be run.
#[derive(Debug, Clone, Copy, PartialEq, Eq, Structural)]
pub enum ConfigError {
    /// The source address is no usable base address.
    SourceUrl,
    /// The destination address is no usable base address.
    DestinationUrl,
    /// No dashboard is named.
    NoDashboards,
}

/// Settings that were found in order: both instances, the dashboards to
/// copy, of which there is at least one, and the channel table.
pub struct Run {
    pub source: Api,
    pub destination: Api,
    pub dashboards: Vec<String>,
    pub table: ChannelMap,
}

/// The pairs of a notification map, as mathematical values.
pub open spec fn pairs_of(pairs: Seq<(String, String)>) -> Seq<(Seq<char>, Seq<char>)> {
    pairs.map_values(|pair: (String, String)| (pair.0@, pair.1@))
}

/// The table that a sequence of pairs describes: each pair is entered in
/// turn, so a later pair replaces an earlier one with the same source.
pub open spec fn table_of(pairs: Seq<(Seq<char>, Seq<char>)>) -> Map<Seq<char>, Seq<char>>
    decreases pairs.len(),
{
    if pairs.len() == 0 {
        Map::empty()
    } else {
        table_of(pairs.drop_last()).insert(pairs.last().0, pairs.last().1)
    }
}

/// The error that the settings call for, if any: the source address is
/// judged first, then the destination address, then the list of dashboards.
pub open spec fn config_error(config: Config) -> Option<ConfigError> {
    if !usable_base(config.source_url@) {
        Some(ConfigError::SourceUrl)
    } else if !usable_base(config.destination_url@) {
        Some(ConfigError::DestinationUrl)
    } else if config.dashboards.len() == 0 {
        Some(ConfigError::NoDashboards)
    } else {
        None
    }
}

/// Builds the channel table that `pairs` describes.
pub fn build_table(pairs: &Vec<(String, String)>) -> (table: ChannelMap)
    ensures
        table@ == table_of(pairs_of(pairs@)),
{
    let ghost all = pairs_of(pairs@);
    let mut table = ChannelMap::new();
    let mut i: usize = 0;
    proof {
        assert(all.take(0) =~= Seq::<(Seq<char>, Seq<char>)>::empty());
    }
    while i < pairs.len()
        invariant
            i <= pairs.len(),
            all == pairs_of(pairs@),
            table@ == table_of(all.take(i as int)),
        decreases pairs.len() - i,
    {
        proof {
            assert(all.take(i + 1).drop_last() =~= all.take(i as int));
            assert(all.take(i + 1).last() == (pairs[i as int].0@, pairs[i as int].1@));
        }
        table.insert(pairs[i].0.clone(), pairs[i].1.clone());
        i += 1;
    }
    proof {
        assert(all.take(i as int) =~= all);
    }
    table
}

/// Checks the settings and makes of them what a run works with.
pub fn prepare(config: Config) -> (result: Result<Run, ConfigError>)
    ensures
        match result {
            Ok(run) => config_error(config) is None && run.source@ == (ApiModel {
                base: config.source_url@,
                access_key: config.source_api_key@,
            }) && run.destination@ == (ApiModel {
                base: config.destination_url@,
                access_key: config.destination_api_key@,
            }) && run.dashboards == config.dashboards && run.table@ == table_of(
                pairs_of(config.notification_map@),
            ),
            Err(error) => config_error(config) == Some(error),
        },
{
    let Config {
        source_url,
        source_api_key,
        destination_url,
        destination_api_key,
        dashboards,
        notification_map,
    } = config;
    let source = match Api::new(source_url, source_api_key) {
        Some(api) => api,
        None => {
            return Err(ConfigError::SourceUrl);
        },
    };
    let destination = match Api::new(destination_url, destination_api_key) {
        Some(api) => api,
        None => {
            return Err(ConfigError::DestinationUrl);
        },
    };
    if dashboards.len() == 0 {
        return Err(ConfigError::NoDashboards);
    }
    let table = build_table(&notification_map);
    Ok(Run { source, destination, dashboards, table })
}

} // verus!
