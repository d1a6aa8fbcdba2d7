//! The settings that are kept from one run to the next.

use crate::media_options::{Options, OptionsModel};
use crate::path::{path_of, PathModel, RawPath};
use crate::single::Single;
use crate::text::text_of;
use vstd::prelude::*;

verus! {

#[derive(Debug, Clone, Copy, PartialEq, Eq, Structural)]
pub struct WindowPosition {
    pub x: Single,
    pub y: Single,
}

#[derive(Debug, Clone, Copy, PartialEq, Eq, Structural)]
pub struct WindowSize {
    pub width: Single,
    pub height: Single,
}

#[derive(Debug, PartialEq, Eq)]
pub struct Config {
    pub bin_dir: Option<RawPath>,
    pub download_folder: Option<RawPath>,
    pub save_window_position: bool,
    pub window_position: Option<WindowPosition>,
    pub window_size: Option<WindowSize>,
    pub url: Option<String>,
    pub options: Options,
}

/// The settings, with texts and paths as sequences.
pub struct ConfigModel {
    pub bin_dir: Option<PathModel>,
    pub download_folder: Option<PathModel>,
    pub save_window_position: bool,
    pub window_position: Option<WindowPosition>,
    pub window_size: Option<WindowSize>,
    pub url: Option<Seq<char>>,
    pub options: OptionsModel,
}

impl View for Config {
    type V = ConfigModel;

    open spec fn view(&self) -> ConfigModel {
        ConfigModel {
            bin_dir: path_of(self.bin_dir),
            download_folder: path_of(self.download_folder),
            save_window_position: self.save_window_position,
            window_position: self.window_position,
            window_size: self.window_size,
            url: text_of(self.url),
            options: self.options@,
        }
    }
}

impl ConfigModel {
    /// Settings with nothing chosen but the given options.
    pub open spec fn bare(options: OptionsModel) -> ConfigModel {
        ConfigModel {
            bin_dir: None,
            download_folder: None,
            save_window_position: false,
            window_position: None,
            window_size: None,
            url: None,
            options,
        }
    }

    /// The settings as they are written to the file: without the link of the moment.
    pub open spec fn to_save(self) -> ConfigModel {
        ConfigModel { url: None, ..self }
    }
}

impl Config {
    /// Settings with nothing chosen but the given options.
    pub fn with_options(options: Options) -> (config: Self)
        ensures
            config@ == (ConfigModel {
                bin_dir: None,
                download_folder: None,
                save_window_position: false,
                window_position: None,
                window_size: None,
                url: None,
                options: options@,
            }),
            config@ == ConfigModel::bare(options@),
    {
        Config {
            bin_dir: None,
            download_folder: None,
            save_window_position: false,
            window_position: None,
            window_size: None,
            url: None,
            options,
        }
    }

    /// Makes the settings ready to be written to the file: the link of the moment is dropped.
    pub fn update_config_file(&mut self)
        ensures
            final(self)@ == old(self)@.to_save(),
    {
        self.url = None;
    }
}

} // verus!
