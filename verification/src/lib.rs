//! Fixed-point price math for a concentrated-liquidity automated market
//! maker: conversion between tick indices and square-root price ratios, a
//! Q64.64 base-2 exponential, the closed-form price evolution of a pool
//! under time-weighted order flow, and a full-range pool with an oracle
//! layer that consumes them.
pub mod exp2;
pub mod muldiv;
pub mod pool;
pub mod tick;
pub mod twamm;
pub mod wide;
