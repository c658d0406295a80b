pub mod account;
pub mod account_calendar;
pub mod account_notification;
pub mod appointment_group;
pub mod assignment;
pub mod authentication_event;
pub mod authentication_provider;
pub mod blueprint;
pub mod bookmark;
pub mod calendar_event;
pub mod collaboration;
pub mod comm_message;
pub mod communication_channel;
pub mod content_export;
pub mod content_migration;
pub mod conversation;
pub mod course;
pub mod custom_gradebook_column;
pub mod discussion_topic;
pub mod enrollment;
pub mod enrollment_term;
pub mod eportfolio;
pub mod external_feed;
pub mod external_tool;
pub mod favorite;
pub mod feature;
pub mod file;
pub mod folder;
pub mod grade_change_log;
pub mod gradebook_history;
pub mod grading_period;
pub mod grading_standard;
pub mod group;
pub mod jwt;
pub mod license;
pub mod login;
pub mod lti_resource_link;
pub mod module;
pub mod new_quiz;
pub mod outcome;
pub mod page;
pub mod page_view;
pub mod pairing_code;
pub mod planner;
pub mod poll;
pub mod progress;
pub mod params;
