//! Verified core of the Greentic demo catalog: the message handlers of the
//! demo components, their QA and i18n helpers, route selection, HTTP request
//! preparation, activity mapping for the runner bridge, and the presentation
//! component of the Telco-X demo (routing, screens, report cards, messages).
pub mod text;
pub mod json;
pub mod json_build;
pub mod json_order;
pub mod component;
pub mod component_random;
pub mod component_http;
pub mod http2play;
pub mod i18n;
pub mod qa;
pub mod component_betterstack_incident;
pub mod cli;
pub mod runner_bridge;
pub mod telemetry;
pub mod telco_present;
pub mod telco_messages;
pub mod telco_screens;
pub mod telco_cards;
pub mod telco_analysis;
pub mod telco_findings;
pub mod telco_port_report;
pub mod telco_prefix_report;
pub mod telco_triage;
pub mod telco_form_reports;
