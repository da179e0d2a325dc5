//! Verified core of a varlink service that controls monitors through libddcutil.
pub mod audience;
pub mod beginnings;
pub mod capabilities;
pub mod changes;
pub mod channel;
pub mod controller;
pub mod courses;
pub mod ddcutil;
pub mod device;
pub mod dpms;
pub mod edid;
pub mod events;
pub mod gathering;
pub mod json;
pub mod methods;
pub mod operation;
pub mod passes;
pub mod poller;
pub mod polling;
pub mod readings;
pub mod results;
pub mod service;
pub mod status;
pub mod subscribers;
pub mod subscription;
pub mod terms;
pub mod text;
pub mod textmap;
pub mod varlink_impl;
pub mod vcp;
