//! Drivers of a media player: the interface every driver offers, and the
//! client of the player's HTTP control protocol.
use crate::errors::HomeRadioError;
use vstd::prelude::*;

pub mod remote_media_service;

pub use remote_media_service::{
    AfterSend, AfterSleep, AfterStatus, Audiofilters, Category, Command, Meta, RemoteMediaService,
    Step, Stream0, Videoeffects, VlcStatus,
};

verus! {

/// Makes a driver.  The driver is chosen once, when the program starts.
pub trait MediaServiceFactory<T: MediaService> {
    fn create(&self) -> T;
}

/// What a driver that plays in-process offers.
pub trait MediaService {
    fn start(&self, url: &str, volume: u16) -> Result<(), HomeRadioError>;

    fn stop(&self) -> Result<(), HomeRadioError>;

    fn increase_volume(&self, amount: i32) -> Result<(), HomeRadioError>;

    fn decrease_volume(&self, amount: i32) -> Result<(), HomeRadioError>;

    fn get_volume(&self) -> Result<i32, HomeRadioError>;

    fn set_volume(&self, new_vol: u16) -> Result<(), HomeRadioError>;
}

} // verus!
