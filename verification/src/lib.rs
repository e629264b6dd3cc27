//! Verified core of a terminal assistant that prepares VASP calculations and
//! submits them to an SGE cluster: text handling, screen state machines,
//! INCAR parameter tables, job script rendering and submission bookkeeping.

pub mod app;
pub mod config;
pub mod file_list;
pub mod incar;
pub mod number;
pub mod order;
pub mod python;
pub mod reply;
pub mod report;
pub mod scan;
pub mod screens;
pub mod shell;
pub mod state;
pub mod text;
pub mod view;
