//! A collateralized lending ledger: depositors supply an asset to earn yield,
//! borrowers draw against deposited collateral up to a loan-to-value limit,
//! interest accrues continuously, and under-collateralized positions may be
//! liquidated by a third party for a bonus.
//!
//! The library is the share-based accounting and risk engine: conversion
//! between absolute asset amounts and proportional shares of a pool,
//! continuous interest accrual on scaled-integer fixed-point values,
//! collateral valuation from externally supplied prices, health-factor
//! computation, and liquidation arithmetic. Identity, custody transfer,
//! durable storage and price retrieval are external collaborators: callers
//! hand the engine the records, prices and the clock reading, and commit the
//! returned records together with the asset transfer the operation names.

pub mod accrual;
pub mod borrow;
pub mod constants;
pub mod deposit;
pub mod error;
pub mod health;
pub mod liquidate;
pub mod math;
pub mod price;
pub mod repay;
pub mod shares;
pub mod state;
pub mod withdraw;
