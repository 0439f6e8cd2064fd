//! Reading what Sonarr put in the environment.

use vstd::prelude::*;
use crate::models::sonarr::SonarrContext;
use crate::text::{lowercase_of, opt_view, text_eq, to_lowercase};

verus! {

/// The value of the variable `name` among `vars`, where names are compared
/// in lowercase and the last of several variables of one name counts.
pub open spec fn env_value(vars: Seq<(String, String)>, name: Seq<char>) -> Option<Seq<char>>
    decreases vars.len(),
{
    if vars.len() == 0 {
        None
    } else if lowercase_of(vars.last().0@) == name {
        Some(vars.last().1@)
    } else {
        env_value(vars.drop_last(), name)
    }
}

/// What the variables say of Sonarr's call, field by field.
pub open spec fn context_of(vars: Seq<(String, String)>, context: SonarrContext) -> bool {
    &&& opt_view(context.source_path) == env_value(vars, "sonarr_sourcepath"@)
    &&& opt_view(context.destination_path) == env_value(vars, "sonarr_destinationpath"@)
    &&& opt_view(context.instance_name) == env_value(vars, "sonarr_instancename"@)
    &&& opt_view(context.application_url) == env_value(vars, "sonarr_applicationurl"@)
    &&& opt_view(context.transfer_mode) == env_value(vars, "sonarr_transfermode"@)
    &&& opt_view(context.series_id) == env_value(vars, "sonarr_series_id"@)
    &&& opt_view(context.series_title) == env_value(vars, "sonarr_series_title"@)
    &&& opt_view(context.series_title_slug) == env_value(vars, "sonarr_series_titleslug"@)
    &&& opt_view(context.series_path) == env_value(vars, "sonarr_series_path"@)
    &&& opt_view(context.series_tvdb_id) == env_value(vars, "sonarr_series_tvdbid"@)
    &&& opt_view(context.series_tv_maze_id) == env_value(vars, "sonarr_series_tvmazeid"@)
    &&& opt_view(context.series_tmdb_id) == env_value(vars, "sonarr_series_tmdbid"@)
    &&& opt_view(context.series_imdb_id) == env_value(vars, "sonarr_series_imdbid"@)
    &&& opt_view(context.series_type) == env_value(vars, "sonarr_series_type"@)
    &&& opt_view(context.series_original_language) == env_value(vars, "sonarr_series_originallanguage"@)
    &&& opt_view(context.series_genres) == env_value(vars, "sonarr_series_genres"@)
    &&& opt_view(context.series_tags) == env_value(vars, "sonarr_series_tags"@)
    &&& opt_view(context.episode_file_episode_count) == env_value(vars, "sonarr_episodefile_episodecount"@)
    &&& opt_view(context.episode_file_episode_ids) == env_value(vars, "sonarr_episodefile_episodeids"@)
    &&& opt_view(context.episode_file_season_number) == env_value(vars, "sonarr_episodefile_seasonnumber"@)
    &&& opt_view(context.episode_file_episode_numbers) == env_value(vars, "sonarr_episodefile_episodenumbers"@)
    &&& opt_view(context.episode_file_episode_air_dates) == env_value(vars, "sonarr_episodefile_episodeairdates"@)
    &&& opt_view(context.episode_file_episode_air_dates_utc) == env_value(vars, "sonarr_episodefile_episodeairdatesutc"@)
    &&& opt_view(context.episode_file_episode_titles) == env_value(vars, "sonarr_episodefile_episodetitles"@)
    &&& opt_view(context.episode_file_episode_overviews) == env_value(vars, "sonarr_episodefile_episodeoverviews"@)
    &&& opt_view(context.episode_file_quality) == env_value(vars, "sonarr_episodefile_quality"@)
    &&& opt_view(context.episode_file_quality_version) == env_value(vars, "sonarr_episodefile_qualityversion"@)
    &&& opt_view(context.episode_file_release_group) == env_value(vars, "sonarr_episodefile_releasegroup"@)
    &&& opt_view(context.episode_file_scene_name) == env_value(vars, "sonarr_episodefile_scenename"@)
    &&& opt_view(context.episode_file_media_info_audio_channels) == env_value(vars, "sonarr_episodefile_mediainfo_audiochannels"@)
    &&& opt_view(context.episode_file_media_info_audio_codec) == env_value(vars, "sonarr_episodefile_mediainfo_audiocodec"@)
    &&& opt_view(context.episode_file_media_info_audio_languages) == env_value(vars, "sonarr_episodefile_mediainfo_audiolanguages"@)
    &&& opt_view(context.episode_file_media_info_languages) == env_value(vars, "sonarr_episodefile_mediainfo_languages"@)
    &&& opt_view(context.episode_file_media_info_height) == env_value(vars, "sonarr_episodefile_mediainfo_height"@)
    &&& opt_view(context.episode_file_media_info_width) == env_value(vars, "sonarr_episodefile_mediainfo_width"@)
    &&& opt_view(context.episode_file_media_info_subtitles) == env_value(vars, "sonarr_episodefile_mediainfo_subtitles"@)
    &&& opt_view(context.episode_file_media_info_video_codec) == env_value(vars, "sonarr_episodefile_mediainfo_videocodec"@)
    &&& opt_view(context.episode_file_media_info_video_dynamic_range_type) == env_value(vars, "sonarr_episodefile_mediainfo_videodynamicrangetype"@)
    &&& opt_view(context.episode_file_custom_format) == env_value(vars, "sonarr_episodefile_customformat"@)
    &&& opt_view(context.episode_file_custom_format_score) == env_value(vars, "sonarr_episodefile_customformatscore"@)
    &&& opt_view(context.download_client) == env_value(vars, "sonarr_download_client"@)
    &&& opt_view(context.download_client_type) == env_value(vars, "sonarr_download_client_type"@)
    &&& opt_view(context.download_id) == env_value(vars, "sonarr_download_id"@)
    &&& opt_view(context.deleted_relative_paths) == env_value(vars, "sonarr_deletedrelativepaths"@)
    &&& opt_view(context.deleted_paths) == env_value(vars, "sonarr_deletedpaths"@)
    &&& opt_view(context.deleted_date_added) == env_value(vars, "sonarr_deleteddateadded"@)
    &&& opt_view(context.deleted_recycle_bin_paths) == env_value(vars, "sonarr_deletedrecyclebinpaths"@)
}

/// Whether a lowercase name is the wanted one.
pub fn is_variable(lowered: &str, name: &str) -> (r: bool)
    ensures
        r == (lowered@ == name@),
{
    text_eq(lowered, name)
}

/// The value of a variable, by its lowercase name.

fn lookup(vars: &Vec<(String, String)>, name: &str) -> (value: Option<String>)
    ensures
        opt_view(value) == env_value(vars@, name@),
{
    let mut i: usize = vars.len();
    assert(vars@.take(i as int) =~= vars@);
    while i > 0
        invariant
            i <= vars.len(),
            env_value(vars@, name@) == env_value(vars@.take(i as int), name@),
        decreases i,
    {
        let ghost upto = vars@.take(i as int);
        proof {
            assert(upto.drop_last() =~= vars@.take(i - 1));
            assert(upto.last() == vars@[i - 1]);
        }
        let lowered = to_lowercase(vars[i - 1].0.as_str());
        if is_variable(lowered.as_str(), name) {
            return Some(vars[i - 1].1.clone());
        }
        i -= 1;
    }
    None
}

/// Collects the variables that Sonarr sets from the variables of the
/// environment, given as pairs of name and value.
pub fn collect_sonarr_environment(vars: &Vec<(String, String)>) -> (context: SonarrContext)
    ensures
        context_of(vars@, context),
{
    SonarrContext {
        source_path: lookup(vars, "sonarr_sourcepath"),
        destination_path: lookup(vars, "sonarr_destinationpath"),
        instance_name: lookup(vars, "sonarr_instancename"),
        application_url: lookup(vars, "sonarr_applicationurl"),
        transfer_mode: lookup(vars, "sonarr_transfermode"),
        series_id: lookup(vars, "sonarr_series_id"),
        series_title: lookup(vars, "sonarr_series_title"),
        series_title_slug: lookup(vars, "sonarr_series_titleslug"),
        series_path: lookup(vars, "sonarr_series_path"),
        series_tvdb_id: lookup(vars, "sonarr_series_tvdbid"),
        series_tv_maze_id: lookup(vars, "sonarr_series_tvmazeid"),
        series_tmdb_id: lookup(vars, "sonarr_series_tmdbid"),
        series_imdb_id: lookup(vars, "sonarr_series_imdbid"),
        series_type: lookup(vars, "sonarr_series_type"),
        series_original_language: lookup(vars, "sonarr_series_originallanguage"),
        series_genres: lookup(vars, "sonarr_series_genres"),
        series_tags: lookup(vars, "sonarr_series_tags"),
        episode_file_episode_count: lookup(vars, "sonarr_episodefile_episodecount"),
        episode_file_episode_ids: lookup(vars, "sonarr_episodefile_episodeids"),
        episode_file_season_number: lookup(vars, "sonarr_episodefile_seasonnumber"),
        episode_file_episode_numbers: lookup(vars, "sonarr_episodefile_episodenumbers"),
        episode_file_episode_air_dates: lookup(vars, "sonarr_episodefile_episodeairdates"),
        episode_file_episode_air_dates_utc: lookup(vars, "sonarr_episodefile_episodeairdatesutc"),
        episode_file_episode_titles: lookup(vars, "sonarr_episodefile_episodetitles"),
        episode_file_episode_overviews: lookup(vars, "sonarr_episodefile_episodeoverviews"),
        episode_file_quality: lookup(vars, "sonarr_episodefile_quality"),
        episode_file_quality_version: lookup(vars, "sonarr_episodefile_qualityversion"),
        episode_file_release_group: lookup(vars, "sonarr_episodefile_releasegroup"),
        episode_file_scene_name: lookup(vars, "sonarr_episodefile_scenename"),
        episode_file_media_info_audio_channels: lookup(vars, "sonarr_episodefile_mediainfo_audiochannels"),
        episode_file_media_info_audio_codec: lookup(vars, "sonarr_episodefile_mediainfo_audiocodec"),
        episode_file_media_info_audio_languages: lookup(vars, "sonarr_episodefile_mediainfo_audiolanguages"),
        episode_file_media_info_languages: lookup(vars, "sonarr_episodefile_mediainfo_languages"),
        episode_file_media_info_height: lookup(vars, "sonarr_episodefile_mediainfo_height"),
        episode_file_media_info_width: lookup(vars, "sonarr_episodefile_mediainfo_width"),
        episode_file_media_info_subtitles: lookup(vars, "sonarr_episodefile_mediainfo_subtitles"),
        episode_file_media_info_video_codec: lookup(vars, "sonarr_episodefile_mediainfo_videocodec"),
        episode_file_media_info_video_dynamic_range_type: lookup(vars, "sonarr_episodefile_mediainfo_videodynamicrangetype"),
        episode_file_custom_format: lookup(vars, "sonarr_episodefile_customformat"),
        episode_file_custom_format_score: lookup(vars, "sonarr_episodefile_customformatscore"),
        download_client: lookup(vars, "sonarr_download_client"),
        download_client_type: lookup(vars, "sonarr_download_client_type"),
        download_id: lookup(vars, "sonarr_download_id"),
        deleted_relative_paths: lookup(vars, "sonarr_deletedrelativepaths"),
        deleted_paths: lookup(vars, "sonarr_deletedpaths"),
        deleted_date_added: lookup(vars, "sonarr_deleteddateadded"),
        deleted_recycle_bin_paths: lookup(vars, "sonarr_deletedrecyclebinpaths"),
    }
}

} // verus!
