use podtender::example_values_trait::ExampleValues;
use podtender::containers::parameter_types::{CheckpointContainerParameter, ContainerExistsParameter, ContainerLogsParameter, ContainersStatsParameter, CreateContainerParameter, DeleteContainerParameter, ExportContainerParameter, HealthcheckContainerParameter, InitializeContainerParameter, InspectContainerParameter, KillContainerParameter, ListContainerProcessesParameter, ListContainersParameter, MountContainerParameter, PauseContainerParameter, PruneContainersParameter, RenameContainerParameter, RestartContainerParameter, RestoreContainerParameter, StartContainerParameter, StopContainerParameter, UnmountContainerParameter, UnpauseContainerParameter};
use podtender::images::parameter_types::{ExportImageParameter, ImageExistsParameter, ImportImageParameter, InspectImageParameter, ListImagesParameter, PruneImagesParameter, PullImagesParameter, RemoveImageParameter, SearchImagesParameter};
use podtender::networks::parameter_types::{ConnectContainerParameter, CreateNetworkParameter, DisconnectContainerParameter, InspectNetworkParameter, ListNetworksParameter, NetworkExistsParameter, PruneNetworksParameter, RemoveNetworkParameter};
use podtender::pods::parameter_types::{CreatePodParameter, InspectPodParameter, KillPodParameter, ListPodProcessesParameter, ListPodsParameter, PausePodParameter, PodExistsParameter, PodStatsParameter, RemovePodParameter, RestartPodParameter, StartPodParameter, StopPodParameter, UnpausePodParameter};
use podtender::system::parameter_types::{EventsParameter};
use podtender::volumes::parameter_types::{CreateVolumeParameter, InspectVolumeParameter, ListVolumesParameter, PruneVolumesParameter, RemoveVolumeParameter, VolumeExistsParameter};

#[test]
fn example_of_create_container_parameter() {
    let example = CreateContainerParameter::example();
    assert!(example.annotations.is_none());
    assert!(example.apparmor_profile.is_none());
    assert!(example.cap_add.is_none());
    assert!(example.cap_drop.is_none());
    assert!(example.cgroup_parent.is_none());
    assert!(example.cgroupns.is_none());
    assert!(example.cgroups_mode.is_none());
    assert!(example.command.is_none());
    assert!(example.conmon_pid_file.is_none());
    assert!(example.container_create_command.is_none());
    assert!(example.cpu_period.is_none());
    assert!(example.cpu_quota.is_none());
    assert!(example.create_working_dir.is_none());
    assert!(example.dependency_containers.is_none());
    assert!(example.device_cgroup_rule.is_none());
    assert!(example.devices.is_none());
    assert!(example.devices_from.is_none());
    assert!(example.dns_option.is_none());
    assert!(example.dns_search.is_none());
    assert!(example.dns_server.is_none());
    assert!(example.entrypoint.is_none());
    assert!(example.env.is_none());
    assert!(example.env_host.is_none());
    assert!(example.expose.is_none());
    assert!(example.groups.is_none());
    assert!(example.healthconfig.is_none());
    assert!(example.host_device_list.is_none());
    assert!(example.hostadd.is_none());
    assert!(example.hostname.is_none());
    assert!(example.hostusers.is_none());
    assert!(example.httpproxy.is_none());
    assert!(example.idmappings.is_none());
    assert!(example.image.is_none());
    assert!(example.image_volume_mode.is_none());
    assert!(example.image_volumes.is_none());
    assert!(example.init.is_none());
    assert!(example.init_container_type.is_none());
    assert!(example.init_path.is_none());
    assert!(example.ipcns.is_none());
    assert!(example.labels.is_none());
    assert!(example.log_configuration.is_none());
    assert!(example.manage_password.is_none());
    assert!(example.mask.is_none());
    assert!(example.mounts.is_none());
    assert_eq!(example.name, Some("CreateContainerParameter".to_string()));
    assert!(example.namespace.is_none());
    assert!(example.netns.is_none());
    assert!(example.network_options.is_none());
    assert!(example.networks.is_none());
    assert!(example.no_new_privileges.is_none());
    assert!(example.oci_runtime.is_none());
    assert!(example.oom_score_adj.is_none());
    assert!(example.overlay_columes.is_none());
    assert!(example.personality.is_none());
    assert!(example.pidns.is_none());
    assert!(example.pod.is_none());
    assert!(example.portmappings.is_none());
    assert!(example.privileged.is_none());
    assert!(example.procfs_opts.is_none());
    assert!(example.publish_image_ports.is_none());
    assert!(example.r_limits.is_none());
    assert!(example.raw_image_name.is_none());
    assert!(example.read_only_filesystem.is_none());
    assert!(example.remove.is_none());
    assert!(example.resource_limits.is_none());
    assert!(example.restart_policy.is_none());
    assert!(example.restart_tries.is_none());
    assert!(example.rootfs.is_none());
    assert!(example.rootfs_overlay.is_none());
    assert!(example.rootfs_progagation.is_none());
    assert!(example.sdnotify_mode.is_none());
    assert!(example.seccomp_policy.is_none());
    assert!(example.seccomp_profile_path.is_none());
    assert!(example.secrets_env.is_none());
    assert!(example.secrets.is_none());
    assert!(example.selinux_opts.is_none());
    assert!(example.shm_size.is_none());
    assert!(example.stdin.is_none());
    assert!(example.stop_signal.is_none());
    assert!(example.stop_timeout.is_none());
    assert!(example.storage_opts.is_none());
    assert!(example.sysctl.is_none());
    assert!(example.systemd.is_none());
    assert!(example.terminal.is_none());
    assert!(example.throttle_read_bps_device.is_none());
    assert!(example.throttle_read_iops_device.is_none());
    assert!(example.throttle_write_bps_device.is_none());
    assert!(example.throttle_write_iops_device.is_none());
    assert!(example.timeout.is_none());
    assert!(example.timezone.is_none());
    assert!(example.umask.is_none());
    assert!(example.unified.is_none());
    assert!(example.unmask.is_none());
    assert!(example.unsetenv.is_none());
    assert!(example.unsetenvall.is_none());
    assert!(example.use_image_hosts.is_none());
    assert!(example.use_image_resolve_conf.is_none());
    assert!(example.user.is_none());
    assert!(example.userns.is_none());
    assert!(example.utsns.is_none());
    assert!(example.volatile.is_none());
    assert!(example.volumes.is_none());
    assert!(example.volumes_from.is_none());
    assert!(example.weight_device.is_none());
    assert!(example.work_dir.is_none());
}

#[test]
fn example_of_list_containers_parameter() {
    let example = ListContainersParameter::example();
    assert_eq!(example.all, Some(true));
    assert_eq!(example.filters.as_ref().map(|map| map.len()), Some(1));
    assert!(example.limit.is_none());
    assert!(example.pod.is_none());
    assert!(example.size.is_none());
    assert!(example.sync.is_none());
}

#[test]
fn example_of_delete_container_parameter() {
    let example = DeleteContainerParameter::example();
    assert_eq!(example.container_name, "DeleteContainerParameter");
    assert_eq!(example.depend, Some(false));
    assert_eq!(example.force, Some(true));
    assert_eq!(example.ignore, Some(false));
    assert_eq!(example.timeout, Some(0));
    assert_eq!(example.v, Some(true));
}

#[test]
fn example_of_start_container_parameter() {
    let example = StartContainerParameter::example();
    assert_eq!(example.container_name, "StartContainerParameter");
    assert_eq!(example.detach_keys, Some("ctrl-p,ctrl-q".to_string()));
}

#[test]
fn example_of_stop_container_parameter() {
    let example = StopContainerParameter::example();
    assert_eq!(example.container_name, "StopContainerParameter");
    assert_eq!(example.all, Some(false));
    assert_eq!(example.ignore, Some(false));
    assert_eq!(example.timeout, Some(0));
}

#[test]
fn example_of_container_exists_parameter() {
    let example = ContainerExistsParameter::example();
    assert_eq!(example.container_name, "ExistsContainerParameter");
}

#[test]
fn example_of_checkpoint_container_parameter() {
    let example = CheckpointContainerParameter::example();
    assert_eq!(example.container_name, "CheckpointContainerParameter");
    assert_eq!(example.export, Some(true));
    assert_eq!(example.ignore_root_fs, Some(false));
    assert_eq!(example.keep, Some(false));
    assert_eq!(example.leave_running, Some(false));
    assert_eq!(example.print_stats, Some(false));
    assert_eq!(example.tcp_established, Some(true));
}

#[test]
fn example_of_export_container_parameter() {
    let example = ExportContainerParameter::example();
    assert_eq!(example.container_name, "ExportContainerParameter");
}

#[test]
fn example_of_healthcheck_container_parameter() {
    let example = HealthcheckContainerParameter::example();
    assert_eq!(example.container_name, "HealthcheckParameter");
}

#[test]
fn example_of_initialize_container_parameter() {
    let example = InitializeContainerParameter::example();
    assert_eq!(example.container_name, "InitializeContainerParameter");
}

#[test]
fn example_of_inspect_container_parameter() {
    let example = InspectContainerParameter::example();
    assert_eq!(example.container_name, "InspectContainerParameter");
    assert_eq!(example.size, Some(true));
}

#[test]
fn example_of_kill_container_parameter() {
    let example = KillContainerParameter::example();
    assert_eq!(example.container_name, "KillContainerParameter");
    assert_eq!(example.signal, Some("TERM".to_string()));
}

#[test]
fn example_of_container_logs_parameter() {
    let example = ContainerLogsParameter::example();
    assert_eq!(example.container_name, "ContainerLogsParameter");
    assert_eq!(example.follow, Some(true));
    assert!(example.since.is_none());
    assert_eq!(example.stdout, Some(true));
    assert_eq!(example.stderr, Some(true));
    assert!(example.tail.is_none());
    assert_eq!(example.timestamps, Some(false));
    assert!(example.until.is_none());
}

#[test]
fn example_of_pause_container_parameter() {
    let example = PauseContainerParameter::example();
    assert_eq!(example.container_name, "PauseContainerParameter");
}

#[test]
fn example_of_rename_container_parameter() {
    let example = RenameContainerParameter::example();
    assert_eq!(example.container_name, "RenameContainerParameter");
    assert_eq!(example.rename_to, "RenameContainerParameter_renamed");
}

#[test]
fn example_of_restart_container_parameter() {
    let example = RestartContainerParameter::example();
    assert_eq!(example.container_name, "RestartContainerParameter");
    assert_eq!(example.timeout, Some(0));
}

#[test]
fn example_of_restore_container_parameter() {
    let example = RestoreContainerParameter::example();
    assert_eq!(example.container_name, "RestoreContainerParameter");
    assert_eq!(example.ignore_root_fs, Some(false));
    assert_eq!(example.ignore_static_ip, Some(false));
    assert_eq!(example.ignore_static_mac, Some(false));
    assert_eq!(example.import, Some(false));
    assert_eq!(example.keep, Some(false));
    assert_eq!(example.leave_running, Some(false));
    assert!(example.name.is_none());
    assert_eq!(example.print_stats, Some(false));
    assert_eq!(example.tcp_established, Some(false));
}

#[test]
fn example_of_containers_stats_parameter() {
    let example = ContainersStatsParameter::example();
    assert_eq!(example.container_names, vec!["ContainersStatsParameter1".to_string(), "ContainersStatsParameter2".to_string()]);
    assert_eq!(example.interval, Some(5));
    assert_eq!(example.stream, Some(true));
}

#[test]
fn example_of_list_container_processes_parameter() {
    let example = ListContainerProcessesParameter::example();
    assert_eq!(example.container_name, "ContainerStatsParameter");
    assert_eq!(example.delay, Some(1));
    assert!(example.ps_args.is_none());
    assert_eq!(example.stream, Some(true));
}

#[test]
fn example_of_unpause_container_parameter() {
    let example = UnpauseContainerParameter::example();
    assert_eq!(example.container_name, "UnpauseContainerParameter");
}

#[test]
fn example_of_mount_container_parameter() {
    let example = MountContainerParameter::example();
    assert_eq!(example.container_name, "MountContainerParameter");
}

#[test]
fn example_of_unmount_container_parameter() {
    let example = UnmountContainerParameter::example();
    assert_eq!(example.container_name, "UnmountContainerParameter");
}

#[test]
fn example_of_prune_containers_parameter() {
    let example = PruneContainersParameter::example();
    assert_eq!(example.filters.as_ref().map(|map| map.len()), Some(1));
}

#[test]
fn example_of_remove_image_parameter() {
    let example = RemoveImageParameter::example();
    assert_eq!(example.image_name, "remove_image_parameter");
    assert_eq!(example.force, Some(false));
}

#[test]
fn example_of_image_exists_parameter() {
    let example = ImageExistsParameter::example();
    assert_eq!(example.image_name, "exists_image_parameter");
}

#[test]
fn example_of_export_image_parameter() {
    let example = ExportImageParameter::example();
    assert_eq!(example.image_name, "export_image_parameter");
    assert_eq!(example.format, Some("oci-archive".to_string()));
    assert!(example.compress.is_none());
}

#[test]
fn example_of_inspect_image_parameter() {
    let example = InspectImageParameter::example();
    assert_eq!(example.image_name, "inspect_image_parameter");
}

#[test]
fn example_of_import_image_parameter() {
    let example = ImportImageParameter::example();
    assert!(example.changes.is_none());
    assert_eq!(example.message, Some("import_image_parameter_message".to_string()));
    assert_eq!(example.reference, Some("import_image_parameter_reference:reference".to_string()));
    assert!(example.url.is_none());
}

#[test]
fn example_of_list_images_parameter() {
    let example = ListImagesParameter::example();
    assert_eq!(example.all, Some(false));
    assert_eq!(example.filters.as_ref().map(|map| map.len()), Some(1));
}

#[test]
fn example_of_prune_images_parameter() {
    let example = PruneImagesParameter::example();
    assert_eq!(example.all, Some(true));
    assert_eq!(example.external, Some(false));
    assert_eq!(example.filters.as_ref().map(|map| map.len()), Some(1));
}

#[test]
fn example_of_pull_images_parameter() {
    let example = PullImagesParameter::example();
    assert!(example.x_registry_auth_header.is_none());
    assert_eq!(example.all_tags, Some(false));
    assert_eq!(example.arch, Some("amd64".to_string()));
    assert!(example.credentials.is_none());
    assert_eq!(example.os, Some("linux".to_string()));
    assert_eq!(example.policy, Some("always".to_string()));
    assert_eq!(example.quiet, Some(false));
    assert_eq!(example.reference, Some("docker://docker.io/library/hello-world".to_string()));
    assert_eq!(example.tls_verify, Some(true));
    assert!(example.variant.is_none());
}

#[test]
fn example_of_search_images_parameter() {
    let example = SearchImagesParameter::example();
    assert_eq!(example.filters.as_ref().map(|map| map.len()), Some(2));
    assert!(example.limit.is_none());
    assert_eq!(example.list_tags, Some(false));
    assert_eq!(example.term, Some("hello-world".to_string()));
    assert_eq!(example.tls_verify, Some(false));
}

#[test]
fn example_of_remove_network_parameter() {
    let example = RemoveNetworkParameter::example();
    assert_eq!(example.network_name, "RemoveNetworkParameter");
    assert_eq!(example.force, Some(true));
}

#[test]
fn example_of_connect_container_parameter() {
    let example = ConnectContainerParameter::example();
    assert_eq!(example.network_name, "ConnectContainerParameterNetwork");
    assert_eq!(example.aliases, Some(vec!["connect_here".to_string(), "connect_here_too".to_string()]));
    assert_eq!(example.container, "ConnectContainerParameter");
    assert!(example.interface_name.is_none());
    assert_eq!(example.static_ips, Some(vec!["192.168.123.10".to_string()]));
    assert_eq!(example.static_mac, Some("4e:42:36:e8:84:35".to_string()));
}

#[test]
fn example_of_disconnect_container_parameter() {
    let example = DisconnectContainerParameter::example();
    assert_eq!(example.network_name, "DisconnectContainerParameter");
    assert_eq!(example.container, "DisconnectContainerParameterContainer");
    assert_eq!(example.force, Some(true));
}

#[test]
fn example_of_create_network_parameter() {
    let example = CreateNetworkParameter::example();
    assert!(example.created.is_none());
    assert_eq!(example.dns_enabled, Some(true));
    assert_eq!(example.driver, Some("bridge".to_string()));
    assert!(example.id.is_none());
    assert!(example.internal.is_none());
    assert!(example.ipam_options.is_none());
    assert!(example.ipv6_enabled.is_none());
    assert!(example.labels.is_none());
    assert_eq!(example.name, Some("CreateNetworkParameter".to_string()));
    assert!(example.network_interface.is_none());
    assert!(example.options.is_none());
    assert!(example.subnets.is_none());
}

#[test]
fn example_of_list_networks_parameter() {
    let example = ListNetworksParameter::example();
    assert_eq!(example.filters.as_ref().map(|map| map.len()), Some(1));
}

#[test]
fn example_of_prune_networks_parameter() {
    let example = PruneNetworksParameter::example();
    assert_eq!(example.filters.as_ref().map(|map| map.len()), Some(1));
}

#[test]
fn example_of_network_exists_parameter() {
    let example = NetworkExistsParameter::example();
    assert_eq!(example.network_name, "ExistsNetworkParameter");
}

#[test]
fn example_of_inspect_network_parameter() {
    let example = InspectNetworkParameter::example();
    assert_eq!(example.network_name, "InspectNetworkParameter");
}

#[test]
fn example_of_create_pod_parameter() {
    let example = CreatePodParameter::example();
    assert!(example.cgroup_parent.is_none());
    assert!(example.cpu_period.is_none());
    assert!(example.cpu_quota.is_none());
    assert!(example.dns_option.is_none());
    assert!(example.dns_search.is_none());
    assert!(example.dns_server.is_none());
    assert!(example.hostadd.is_none());
    assert!(example.hostname.is_none());
    assert!(example.image_volumes.is_none());
    assert!(example.infra_command.is_none());
    assert!(example.infra_conmon_pid_file.is_none());
    assert!(example.infra_image.is_none());
    assert!(example.labels.is_none());
    assert!(example.mounts.is_none());
    assert_eq!(example.name, Some("CreatePodParameter".to_string()));
    assert!(example.netns.is_none());
    assert!(example.network_options.is_none());
    assert!(example.networks.is_none());
    assert!(example.no_infra.is_none());
    assert!(example.no_manage_hosts.is_none());
    assert!(example.no_manage_resolv_conf.is_none());
    assert!(example.overlay_volumes.is_none());
    assert!(example.pidns.is_none());
    assert!(example.pod_create_command.is_none());
    assert!(example.pod_devices.is_none());
    assert!(example.portmappings.is_none());
    assert!(example.resource_limits.is_none());
    assert!(example.security_opt.is_none());
    assert!(example.shared_namespaces.is_none());
    assert!(example.sysctl.is_none());
    assert!(example.throttle_read_bps_device.is_none());
    assert!(example.userns.is_none());
    assert!(example.volumes.is_none());
    assert!(example.volumes_from.is_none());
}

#[test]
fn example_of_remove_pod_parameter() {
    let example = RemovePodParameter::example();
    assert_eq!(example.pod_name, "RemovePodParameter");
    assert_eq!(example.force, Some(true));
}

#[test]
fn example_of_pod_exists_parameter() {
    let example = PodExistsParameter::example();
    assert_eq!(example.pod_name, "ExistsPodParameter");
}

#[test]
fn example_of_inspect_pod_parameter() {
    let example = InspectPodParameter::example();
    assert_eq!(example.pod_name, "InspectPodParameter");
}

#[test]
fn example_of_kill_pod_parameter() {
    let example = KillPodParameter::example();
    assert_eq!(example.pod_name, "KillPodParameter");
    assert_eq!(example.signal, Some("SIGKILL".to_string()));
}

#[test]
fn example_of_pause_pod_parameter() {
    let example = PausePodParameter::example();
    assert_eq!(example.pod_name, "PausePodParameter");
}

#[test]
fn example_of_restart_pod_parameter() {
    let example = RestartPodParameter::example();
    assert_eq!(example.pod_name, "RestartPodParameter");
}

#[test]
fn example_of_start_pod_parameter() {
    let example = StartPodParameter::example();
    assert_eq!(example.pod_name, "StartPodParameter");
}

#[test]
fn example_of_stop_pod_parameter() {
    let example = StopPodParameter::example();
    assert_eq!(example.pod_name, "StopPodParameter");
    assert_eq!(example.timeout, Some(0));
}

#[test]
fn example_of_list_pod_processes_parameter() {
    let example = ListPodProcessesParameter::example();
    assert_eq!(example.pod_name, "PodListProcessesParameter");
    assert_eq!(example.delay, Some(1));
    assert!(example.ps_args.is_none());
    assert_eq!(example.stream, Some(true));
}

#[test]
fn example_of_unpause_pod_parameter() {
    let example = UnpausePodParameter::example();
    assert_eq!(example.pod_name, "UnpausePodParameter");
}

#[test]
fn example_of_list_pods_parameter() {
    let example = ListPodsParameter::example();
    assert_eq!(example.filters.as_ref().map(|map| map.len()), Some(1));
}

#[test]
fn example_of_pod_stats_parameter() {
    let example = PodStatsParameter::example();
    assert_eq!(example.all, Some(true));
    assert!(example.names_or_ids.is_none());
}

#[test]
fn example_of_events_parameter() {
    let example = EventsParameter::example();
    assert_eq!(example.filters.as_ref().map(|map| map.len()), Some(1));
    assert_eq!(example.since, Some("3m".to_string()));
    assert_eq!(example.stream, true);
    assert_eq!(example.until, Some("10s".to_string()));
}

#[test]
fn example_of_create_volume_parameter() {
    let example = CreateVolumeParameter::example();
    assert_eq!(example.driver, Some("local".to_string()));
    assert_eq!(example.labels.as_ref().map(|map| map.len()), Some(1));
    assert_eq!(example.volume_name, Some("CreateVolumeParameter".to_string()));
    assert!(example.options.is_none());
}

#[test]
fn example_of_volume_exists_parameter() {
    let example = VolumeExistsParameter::example();
    assert_eq!(example.volume_name, "ExistsVolumeParameter");
}

#[test]
fn example_of_inspect_volume_parameter() {
    let example = InspectVolumeParameter::example();
    assert_eq!(example.volume_name, "InspectVolumeParameter");
}

#[test]
fn example_of_remove_volume_parameter() {
    let example = RemoveVolumeParameter::example();
    assert_eq!(example.volume_name, "RemoveVolumeParameter");
    assert_eq!(example.force, Some(true));
}

#[test]
fn example_of_list_volumes_parameter() {
    let example = ListVolumesParameter::example();
    assert_eq!(example.filters.as_ref().map(|map| map.len()), Some(1));
}

#[test]
fn example_of_prune_volumes_parameter() {
    let example = PruneVolumesParameter::example();
    assert_eq!(example.filters.as_ref().map(|map| map.len()), Some(1));
}
