pub mod explorer_pane;
pub mod main_pane;
pub mod navigation_bar;
pub mod playback_bar;
pub mod queue_pane;
pub mod status_bar;
pub mod track_information_pane;
