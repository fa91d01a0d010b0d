//! A desktop-utility core: a snowflake-style unique-ID generator, a task
//! scheduler for one-shot reminders and recurring cron jobs, and a TCP
//! port-probe result model.

pub mod datetime;
pub mod network_util;
pub mod registry;
pub mod scheduled_tasks;
pub mod snowflake;
