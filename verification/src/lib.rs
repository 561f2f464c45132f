pub mod text;
pub mod battery;
pub mod health;
pub mod bluetooth;
pub mod network_agent;
pub mod network;
pub mod mpris;
pub mod audio;
pub mod clipboard;
pub mod compositor;
pub mod brightness;
pub mod bluetooth_agent;
pub mod exec_protocol;
pub mod exec_applet;
pub mod row_sync;
pub mod pager;
pub mod device_list;
pub mod network_sections;
pub mod bluetooth_popover;
pub mod throttle;
pub mod audio_popover;
pub mod sorting;
pub mod notifications;
pub mod calendar;
pub mod command_applet;
pub mod keyboard;
pub mod power_profiles;
pub mod exec_supervisor;
pub mod exec_host;
pub mod panels;
pub mod notification_popups;
