//! Core logic of an algorithmic trading bot for the Binance exchange:
//! order and market vocabulary, request building and signing, response
//! checks, order retry and fill-tracking decisions, the open-position
//! book, backtest streak statistics and configuration parsing.

pub mod text;
pub mod types;
pub mod error;
pub mod api;
pub mod execution;
pub mod risk;
pub mod strategy;
pub mod backtest;
pub mod config;
pub mod cli;
