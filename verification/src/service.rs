//! What leaves the system: the records of the time-series database and the
//! messages of the home automation.
use vstd::prelude::*;


pub mod influxdb;
pub mod json;
pub mod hassmqtt;
