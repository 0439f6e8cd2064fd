//! What Sonarr tells a script it calls.

use vstd::prelude::*;

verus! {

/// The variables that Sonarr passes in the environment, each as the text it
/// was given.
#[derive(Debug, Clone)]
pub struct SonarrContext {
    // The file and where it goes.
    /// `sonarr_sourcepath`.
    pub source_path: Option<String>,
    /// `sonarr_destinationpath`.
    pub destination_path: Option<String>,
    // The Sonarr instance.
    /// `sonarr_instancename`.
    pub instance_name: Option<String>,
    /// `sonarr_applicationurl`.
    pub application_url: Option<String>,
    /// `sonarr_transfermode`.
    pub transfer_mode: Option<String>,
    // The series.
    /// `sonarr_series_id`.
    pub series_id: Option<String>,
    /// `sonarr_series_title`.
    pub series_title: Option<String>,
    /// `sonarr_series_titleslug`.
    pub series_title_slug: Option<String>,
    /// `sonarr_series_path`.
    pub series_path: Option<String>,
    /// `sonarr_series_tvdbid`.
    pub series_tvdb_id: Option<String>,
    /// `sonarr_series_tvmazeid`.
    pub series_tv_maze_id: Option<String>,
    /// `sonarr_series_tmdbid`.
    pub series_tmdb_id: Option<String>,
    /// `sonarr_series_imdbid`.
    pub series_imdb_id: Option<String>,
    /// `sonarr_series_type`.
    pub series_type: Option<String>,
    /// `sonarr_series_originallanguage`.
    pub series_original_language: Option<String>,
    /// `sonarr_series_genres`.
    pub series_genres: Option<String>,
    /// `sonarr_series_tags`.
    pub series_tags: Option<String>,
    // The episodes in the file.
    /// `sonarr_episodefile_episodecount`.
    pub episode_file_episode_count: Option<String>,
    /// `sonarr_episodefile_episodeids`.
    pub episode_file_episode_ids: Option<String>,
    /// `sonarr_episodefile_seasonnumber`.
    pub episode_file_season_number: Option<String>,
    /// `sonarr_episodefile_episodenumbers`.
    pub episode_file_episode_numbers: Option<String>,
    /// `sonarr_episodefile_episodeairdates`.
    pub episode_file_episode_air_dates: Option<String>,
    /// `sonarr_episodefile_episodeairdatesutc`.
    pub episode_file_episode_air_dates_utc: Option<String>,
    /// `sonarr_episodefile_episodetitles`.
    pub episode_file_episode_titles: Option<String>,
    /// `sonarr_episodefile_episodeoverviews`.
    pub episode_file_episode_overviews: Option<String>,
    // Quality and media information.
    /// `sonarr_episodefile_quality`.
    pub episode_file_quality: Option<String>,
    /// `sonarr_episodefile_qualityversion`.
    pub episode_file_quality_version: Option<String>,
    /// `sonarr_episodefile_releasegroup`.
    pub episode_file_release_group: Option<String>,
    /// `sonarr_episodefile_scenename`.
    pub episode_file_scene_name: Option<String>,
    /// `sonarr_episodefile_mediainfo_audiochannels`.
    pub episode_file_media_info_audio_channels: Option<String>,
    /// `sonarr_episodefile_mediainfo_audiocodec`.
    pub episode_file_media_info_audio_codec: Option<String>,
    /// `sonarr_episodefile_mediainfo_audiolanguages`.
    pub episode_file_media_info_audio_languages: Option<String>,
    /// `sonarr_episodefile_mediainfo_languages`.
    pub episode_file_media_info_languages: Option<String>,
    /// `sonarr_episodefile_mediainfo_height`.
    pub episode_file_media_info_height: Option<String>,
    /// `sonarr_episodefile_mediainfo_width`.
    pub episode_file_media_info_width: Option<String>,
    /// `sonarr_episodefile_mediainfo_subtitles`.
    pub episode_file_media_info_subtitles: Option<String>,
    /// `sonarr_episodefile_mediainfo_videocodec`.
    pub episode_file_media_info_video_codec: Option<String>,
    /// `sonarr_episodefile_mediainfo_videodynamicrangetype`.
    pub episode_file_media_info_video_dynamic_range_type: Option<String>,
    // Custom formats.
    /// `sonarr_episodefile_customformat`.
    pub episode_file_custom_format: Option<String>,
    /// `sonarr_episodefile_customformatscore`.
    pub episode_file_custom_format_score: Option<String>,
    // The download.
    /// `sonarr_download_client`.
    pub download_client: Option<String>,
    /// `sonarr_download_client_type`.
    pub download_client_type: Option<String>,
    /// `sonarr_download_id`.
    pub download_id: Option<String>,
    // Files that an upgrade deleted.
    /// `sonarr_deletedrelativepaths`.
    pub deleted_relative_paths: Option<String>,
    /// `sonarr_deletedpaths`.
    pub deleted_paths: Option<String>,
    /// `sonarr_deleteddateadded`.
    pub deleted_date_added: Option<String>,
    /// `sonarr_deletedrecyclebinpaths`.
    pub deleted_recycle_bin_paths: Option<String>,
}

impl SonarrContext {
    /// The context without any variable.
    pub fn empty() -> (context: Self)
        ensures
            context.is_unset(),
    {
        SonarrContext {
            source_path: None,
            destination_path: None,
            instance_name: None,
            application_url: None,
            transfer_mode: None,
            series_id: None,
            series_title: None,
            series_title_slug: None,
            series_path: None,
            series_tvdb_id: None,
            series_tv_maze_id: None,
            series_tmdb_id: None,
            series_imdb_id: None,
            series_type: None,
            series_original_language: None,
            series_genres: None,
            series_tags: None,
            episode_file_episode_count: None,
            episode_file_episode_ids: None,
            episode_file_season_number: None,
            episode_file_episode_numbers: None,
            episode_file_episode_air_dates: None,
            episode_file_episode_air_dates_utc: None,
            episode_file_episode_titles: None,
            episode_file_episode_overviews: None,
            episode_file_quality: None,
            episode_file_quality_version: None,
            episode_file_release_group: None,
            episode_file_scene_name: None,
            episode_file_media_info_audio_channels: None,
            episode_file_media_info_audio_codec: None,
            episode_file_media_info_audio_languages: None,
            episode_file_media_info_languages: None,
            episode_file_media_info_height: None,
            episode_file_media_info_width: None,
            episode_file_media_info_subtitles: None,
            episode_file_media_info_video_codec: None,
            episode_file_media_info_video_dynamic_range_type: None,
            episode_file_custom_format: None,
            episode_file_custom_format_score: None,
            download_client: None,
            download_client_type: None,
            download_id: None,
            deleted_relative_paths: None,
            deleted_paths: None,
            deleted_date_added: None,
            deleted_recycle_bin_paths: None,
        }
    }

    /// No variable is set.
    pub open spec fn is_unset(self) -> bool {
        &&& self.source_path is None
        &&& self.destination_path is None
        &&& self.instance_name is None
        &&& self.application_url is None
        &&& self.transfer_mode is None
        &&& self.series_id is None
        &&& self.series_title is None
        &&& self.series_title_slug is None
        &&& self.series_path is None
        &&& self.series_tvdb_id is None
        &&& self.series_tv_maze_id is None
        &&& self.series_tmdb_id is None
        &&& self.series_imdb_id is None
        &&& self.series_type is None
        &&& self.series_original_language is None
        &&& self.series_genres is None
        &&& self.series_tags is None
        &&& self.episode_file_episode_count is None
        &&& self.episode_file_episode_ids is None
        &&& self.episode_file_season_number is None
        &&& self.episode_file_episode_numbers is None
        &&& self.episode_file_episode_air_dates is None
        &&& self.episode_file_episode_air_dates_utc is None
        &&& self.episode_file_episode_titles is None
        &&& self.episode_file_episode_overviews is None
        &&& self.episode_file_quality is None
        &&& self.episode_file_quality_version is None
        &&& self.episode_file_release_group is None
        &&& self.episode_file_scene_name is None
        &&& self.episode_file_media_info_audio_channels is None
        &&& self.episode_file_media_info_audio_codec is None
        &&& self.episode_file_media_info_audio_languages is None
        &&& self.episode_file_media_info_languages is None
        &&& self.episode_file_media_info_height is None
        &&& self.episode_file_media_info_width is None
        &&& self.episode_file_media_info_subtitles is None
        &&& self.episode_file_media_info_video_codec is None
        &&& self.episode_file_media_info_video_dynamic_range_type is None
        &&& self.episode_file_custom_format is None
        &&& self.episode_file_custom_format_score is None
        &&& self.download_client is None
        &&& self.download_client_type is None
        &&& self.download_id is None
        &&& self.deleted_relative_paths is None
        &&& self.deleted_paths is None
        &&& self.deleted_date_added is None
        &&& self.deleted_recycle_bin_paths is None
    }

    /// Whether Sonarr called: the source path, the instance name or the
    /// series id is set.
    pub fn is_present(&self) -> (r: bool)
        ensures
            r == (self.source_path is Some || self.instance_name is Some || self.series_id
                is Some),
    {
        self.source_path.is_some() || self.instance_name.is_some() || self.series_id.is_some()
    }
}

impl Default for SonarrContext {
    fn default() -> (context: Self)
        ensures
            context.is_unset(),
    {
        SonarrContext::empty()
    }
}

} // verus!
