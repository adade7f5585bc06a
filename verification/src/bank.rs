//! The static query bank: raw, immutable template text.
//!
//! Each constant holds the literal text of one query template. Most templates
//! are looked up verbatim through the registry; a few serve only as inputs to
//! the derived-query compositor (the registry enumeration base and the hive
//! prefixes), and one is a deliberately malformed template kept for negative
//! testing of the execution collaborator. The catalog never parses or
//! validates this text: it is an opaque payload.

use vstd::prelude::*;

verus! {

/// Column name under which the server's UTC timestamp is returned.
pub const UTC_DATE_FIELD: &'static str = "utc_date";

pub const COMPUTER_NAME: &'static str = r"DECLARE @ComputerName NVARCHAR(200);
DECLARE @main_key NVARCHAR(200) = 'SYSTEM\CurrentControlSet\Control\ComputerName\ComputerName';
EXECUTE xp_regread
    @rootkey = 'HKEY_LOCAL_MACHINE',
    @key = @main_key,
    @value_name = 'ComputerName',
    @value = @ComputerName OUTPUT;
  Select @ComputerName as 'ComputerName'
";

/// Script that enumerates the installed server instances recorded in the
/// native registry hive. Only used as a compositor input and through the
/// named registry-enumeration accessors, never through direct lookup.
pub const WINDOWS_REGISTRY_INSTANCES_BASE: &'static str = r"
DECLARE @GetInstances TABLE
( Value nvarchar(100),
 InstanceNames nvarchar(100),
 Data nvarchar(100))

DECLARE @GetAll TABLE
( Value nvarchar(100),
 InstanceNames nvarchar(100),
 InstanceIds nvarchar(100),
 EditionNames nvarchar(100),
 VersionNames nvarchar(100),
 ClusterNames nvarchar(100),
 Ports nvarchar(100),
 DynamicPorts nvarchar(100),
 Data nvarchar(100))

Insert into @GetInstances
EXECUTE xp_regread
  @rootkey = 'HKEY_LOCAL_MACHINE',
  @key = 'SOFTWARE\Microsoft\Microsoft SQL Server',
  @value_name = 'InstalledInstances'

DECLARE @InstanceName NVARCHAR(100);

-- Cursor to iterate through the instance names
DECLARE instance_cursor CURSOR FOR
SELECT InstanceNames FROM @GetInstances;

OPEN instance_cursor;

-- Loop through all instances
FETCH NEXT FROM instance_cursor INTO @InstanceName;

WHILE @@FETCH_STATUS = 0
BEGIN
    DECLARE @InstanceId NVARCHAR(100);
    DECLARE @main_key NVARCHAR(200) = 'SOFTWARE\Microsoft\Microsoft SQL Server\Instance Names\SQL';
    EXECUTE xp_regread
        @rootkey = 'HKEY_LOCAL_MACHINE',
        @key = @main_key,
        @value_name = @InstanceName,
        @value = @InstanceId OUTPUT;

    -- You'll need to construct the key path using the instance name
    DECLARE @setup_key NVARCHAR(200) = 'SOFTWARE\Microsoft\Microsoft SQL Server\' + @InstanceId + '\Setup';
    DECLARE @cluster_key NVARCHAR(200) = 'SOFTWARE\Microsoft\Microsoft SQL Server\' + @InstanceId + '\Cluster';
    DECLARE @port_key NVARCHAR(200) = 'SOFTWARE\Microsoft\Microsoft SQL Server\' + @InstanceId + '\MSSQLServer\SuperSocketNetLib\TCP\IPAll';

    DECLARE @Edition NVARCHAR(100);
    EXECUTE xp_regread
        @rootkey = 'HKEY_LOCAL_MACHINE',
        @key = @setup_key,
        @value_name = 'Edition',
        @value = @Edition OUTPUT;

    DECLARE @Version NVARCHAR(100);
    EXECUTE xp_regread
        @rootkey = 'HKEY_LOCAL_MACHINE',
        @key = @setup_key,
        @value_name = 'Version',
        @value = @Version OUTPUT;

    DECLARE @ClusterName NVARCHAR(100);
    EXECUTE xp_regread
        @rootkey = 'HKEY_LOCAL_MACHINE',
        @key = @cluster_key,
        @value_name = 'ClusterName',
        @value = @ClusterName OUTPUT;

    DECLARE @Port NVARCHAR(100);
    EXECUTE xp_regread
        @rootkey = 'HKEY_LOCAL_MACHINE',
        @key = @port_key,
        @value_name = 'tcpPort',
        @value = @Port OUTPUT;

    DECLARE @DynamicPort NVARCHAR(100);
    EXECUTE xp_regread
        @rootkey = 'HKEY_LOCAL_MACHINE',
        @key = @port_key,
        @value_name = 'TcpDynamicPorts',
        @value = @DynamicPort OUTPUT;
    
    insert into @GetAll(InstanceNames, InstanceIds, EditionNames, VersionNames, ClusterNames, Ports, DynamicPorts) Values( @InstanceName, @InstanceId, @Edition, @Version, @ClusterName, @Port, @DynamicPort )
    
    -- Get the next instance
    FETCH NEXT FROM instance_cursor INTO @InstanceName;
END

CLOSE instance_cursor;
DEALLOCATE instance_cursor;

SELECT InstanceNames, InstanceIds, EditionNames, VersionNames, ClusterNames,Ports, DynamicPorts FROM @GetAll;";

/// Registry hive prefix the enumeration base addresses natively.
pub const NATIVE_HIVE_PREFIX: &'static str = r"SOFTWARE\Microsoft\";

/// Registry hive prefix that redirects the enumeration to the 32-bit-on-64-bit
/// view of the registry.
pub const WOW64_32_HIVE_PREFIX: &'static str = r"SOFTWARE\WOW6432Node\Microsoft\";

pub const UTC_ENTRY: &'static str = "SELECT CONVERT(varchar, GETUTCDATE(), 20) as utc_date";

pub const COUNTERS_ENTRIES: &'static str =
    "SELECT counter_name, object_name, instance_name, cntr_value \
     FROM sys.dm_os_performance_counters \
     WHERE object_name NOT LIKE '%Deprecated%'";

/// Base query over the waiting tasks; narrowed by the blocking-sessions
/// filter clause for the derived blocking-sessions entry.
pub const WAITING_TASKS: &'static str = "SELECT cast(session_id as varchar) as session_id, \
            cast(wait_duration_ms as bigint) as wait_duration_ms, \
            wait_type, \
            cast(blocking_session_id as varchar) as blocking_session_id \
    FROM sys.dm_os_waiting_tasks";

/// Filter clause appended to the waiting-tasks base to keep only sessions
/// that block another session.
pub const BLOCKING_SESSIONS_FILTER: &'static str = " WHERE blocking_session_id <> 0 ";

/// Separator between the statements of a multi-statement batch.
pub const BATCH_SEPARATOR: &'static str = ";";

pub const DATABASE_NAMES: &'static str = "SELECT name FROM sys.databases";

pub const SPACE_USED: &'static str = "EXEC sp_spaceused";

pub const BACKUP: &'static str = r"DECLARE @HADRStatus sql_variant; DECLARE @SQLCommand nvarchar(max);
SET @HADRStatus = (SELECT SERVERPROPERTY ('IsHadrEnabled'));
IF (@HADRStatus IS NULL or @HADRStatus <> 1)
BEGIN
    SET @SQLCommand = 'SELECT CONVERT(VARCHAR, DATEADD(s, DATEDIFF(s, ''19700101'', MAX(backup_finish_date)), ''19700101''), 120) AS last_backup_date,
    type, machine_name, ''True'' as is_primary_replica, ''1'' as is_local, '''' as replica_id,database_name FROM msdb.dbo.backupset
    WHERE UPPER(machine_name) = UPPER(CAST(SERVERPROPERTY(''Machinename'') AS VARCHAR))
    GROUP BY type, machine_name,database_name '
END
ELSE
BEGIN
    SET @SQLCommand = 'SELECT CONVERT(VARCHAR, DATEADD(s, DATEDIFF(s, ''19700101'', MAX(b.backup_finish_date)), ''19700101''), 120) AS last_backup_date,
    b.type, b.machine_name, isnull(rep.is_primary_replica,0) as is_primary_replica, rep.is_local, isnull(convert(varchar(40), rep.replica_id), '''') AS replica_id,database_name 
    FROM msdb.dbo.backupset b
    LEFT OUTER JOIN sys.databases db ON b.database_name = db.name
    LEFT OUTER JOIN sys.dm_hadr_database_replica_states rep ON db.database_id = rep.database_id
    WHERE (rep.is_local is null or rep.is_local = 1)
    AND (rep.is_primary_replica is null or rep.is_primary_replica = ''True'') and UPPER(machine_name) = UPPER(CAST(SERVERPROPERTY(''Machinename'') AS VARCHAR))
    GROUP BY type, rep.replica_id, rep.is_primary_replica, rep.is_local, b.database_name, b.machine_name, rep.synchronization_state, rep.synchronization_health'
END
EXEC (@SQLCommand)
";

pub const TRANSACTION_LOGS: &'static str = "SELECT name, physical_name,\
  cast(max_size/128 as bigint) as MaxSize,\
  cast(size/128 as bigint) as AllocatedSize,\
  cast(FILEPROPERTY (name, 'spaceused')/128 as bigint) as UsedSize,\
  case when max_size = '-1' then '1' else '0' end as Unlimited \
 FROM sys.database_files WHERE type_desc = 'LOG'";

pub const DATAFILES: &'static str = "SELECT name, physical_name,\
  cast(max_size/128 as bigint) as MaxSize,\
  cast(size/128 as bigint) as AllocatedSize,\
  cast(FILEPROPERTY (name, 'spaceused')/128 as bigint) as UsedSize,\
  case when max_size = '-1' then '1' else '0' end as Unlimited \
FROM sys.database_files WHERE type_desc = 'ROWS'";

pub const DATABASES: &'static str = "SELECT name, \
cast(DATABASEPROPERTYEX(name, 'Status') as varchar) AS Status, \
  cast(DATABASEPROPERTYEX(name, 'Recovery') as varchar) AS Recovery, \
  cast(DATABASEPROPERTYEX(name, 'IsAutoClose') as bigint) AS auto_close, \
  cast(DATABASEPROPERTYEX(name, 'IsAutoShrink') as bigint) AS auto_shrink \
FROM master.dbo.sysdatabases";

pub const IS_CLUSTERED: &'static str =
    "SELECT cast( SERVERPROPERTY('IsClustered') as varchar) AS is_clustered";

pub const CLUSTER_NODES: &'static str = "SELECT nodename FROM sys.dm_os_cluster_nodes";

pub const CLUSTER_ACTIVE_NODES: &'static str =
    "SELECT cast(SERVERPROPERTY('ComputerNamePhysicalNetBIOS') as varchar) AS active_node";

pub const CONNECTIONS: &'static str = "SELECT name AS DbName, \
      cast((SELECT COUNT(dbid) AS Num_Of_Connections FROM sys.sysprocesses WHERE dbid > 0 AND name = DB_NAME(dbid) GROUP BY dbid ) as bigint) AS NumberOfConnections  \
FROM sys.databases";

pub const JOBS: &'static str = "SELECT \
  sj.job_id AS job_id, \
  sj.name AS job_name, \
  sj.enabled AS job_enabled, \
  CAST(sjs.next_run_date AS VARCHAR(8)) AS next_run_date, \
  CAST(sjs.next_run_time AS VARCHAR(6)) AS next_run_time, \
  sjserver.last_run_outcome, \
  sjserver.last_outcome_message, \
  CAST(sjserver.last_run_date AS VARCHAR(8)) AS last_run_date, \
  CAST(sjserver.last_run_time AS VARCHAR(6)) AS last_run_time, \
  sjserver.last_run_duration, \
  ss.enabled AS schedule_enabled, \
  CONVERT(VARCHAR, CURRENT_TIMESTAMP, 20) AS server_current_time \
FROM dbo.sysjobs sj \
LEFT JOIN dbo.sysjobschedules sjs ON sj.job_id = sjs.job_id \
LEFT JOIN dbo.sysjobservers sjserver ON sj.job_id = sjserver.job_id \
LEFT JOIN dbo.sysschedules ss ON sjs.schedule_id = ss.schedule_id \
ORDER BY sj.name, \
         sjs.next_run_date ASC, \
         sjs.next_run_time ASC \
";

pub const MIRRORING: &'static str = "SELECT @@SERVERNAME as server_name, \
  DB_NAME(database_id) AS [database_name], \
  mirroring_state, \
  mirroring_state_desc, \
  mirroring_role, \
  mirroring_role_desc, \
  mirroring_safety_level, \
  mirroring_safety_level_desc, \
  mirroring_partner_name, \
  mirroring_partner_instance, \
  mirroring_witness_name, \
  mirroring_witness_state, \
  mirroring_witness_state_desc \
FROM sys.database_mirroring \
WHERE mirroring_state IS NOT NULL";

pub const AVAILABILITY_GROUP: &'static str = "SELECT \
  GroupsName.name, \
  Groups.primary_replica, \
  Groups.synchronization_health, \
  Groups.synchronization_health_desc, \
  Groups.primary_recovery_health_desc \
FROM sys.dm_hadr_availability_group_states Groups \
INNER JOIN master.sys.availability_groups GroupsName ON Groups.group_id = GroupsName.group_id";

pub const INSTANCE_PROPERTIES: &'static str = "SELECT \
    cast(SERVERPROPERTY( 'InstanceName' ) as varchar)as InstanceName, \
    cast(SERVERPROPERTY( 'ProductVersion' ) as varchar) as ProductVersion, \
    cast(SERVERPROPERTY( 'MachineName' ) as varchar) as MachineName, \
    cast(SERVERPROPERTY( 'Edition' ) as varchar) as Edition, \
    cast(SERVERPROPERTY( 'ProductLevel' ) as varchar) as ProductLevel, \
    cast(SERVERPROPERTY( 'ComputerNamePhysicalNetBIOS' ) as varchar) as NetBios";

/// Deliberately malformed template, kept only so that the execution
/// collaborator's error handling can be exercised. The catalog hands it out
/// unmodified like any other entry; it never validates query text.
pub const BAD_QUERY: &'static str = "SELEC name FROM sys.databases";

/// All query templates of the bank hold non-empty text.
pub proof fn lemma_bank_templates_nonempty()
    ensures
        COMPUTER_NAME@.len() > 0,
        WINDOWS_REGISTRY_INSTANCES_BASE@.len() > 0,
        UTC_ENTRY@.len() > 0,
        COUNTERS_ENTRIES@.len() > 0,
        WAITING_TASKS@.len() > 0,
        BLOCKING_SESSIONS_FILTER@.len() > 0,
        DATABASE_NAMES@.len() > 0,
        SPACE_USED@.len() > 0,
        BACKUP@.len() > 0,
        TRANSACTION_LOGS@.len() > 0,
        DATAFILES@.len() > 0,
        DATABASES@.len() > 0,
        IS_CLUSTERED@.len() > 0,
        CLUSTER_NODES@.len() > 0,
        CLUSTER_ACTIVE_NODES@.len() > 0,
        CONNECTIONS@.len() > 0,
        JOBS@.len() > 0,
        MIRRORING@.len() > 0,
        AVAILABILITY_GROUP@.len() > 0,
        BAD_QUERY@.len() > 0,
        INSTANCE_PROPERTIES@.len() > 0,
{
    reveal_strlit("SELECT cast(SERVERPROPERTY( 'InstanceName' ) as varchar)as InstanceName, cast(SERVERPROPERTY( 'ProductVersion' ) as varchar) as ProductVersion, cast(SERVERPROPERTY( 'MachineName' ) as varchar) as MachineName, cast(SERVERPROPERTY( 'Edition' ) as varchar) as Edition, cast(SERVERPROPERTY( 'ProductLevel' ) as varchar) as ProductLevel, cast(SERVERPROPERTY( 'ComputerNamePhysicalNetBIOS' ) as varchar) as NetBios");
    reveal_strlit("DECLARE @ComputerName NVARCHAR(200);\nDECLARE @main_key NVARCHAR(200) = 'SYSTEM\\CurrentControlSet\\Control\\ComputerName\\ComputerName';\nEXECUTE xp_regread\n    @rootkey = 'HKEY_LOCAL_MACHINE',\n    @key = @main_key,\n    @value_name = 'ComputerName',\n    @value = @ComputerName OUTPUT;\n  Select @ComputerName as 'ComputerName'\n");
    reveal_strlit("\nDECLARE @GetInstances TABLE\n( Value nvarchar(100),\n InstanceNames nvarchar(100),\n Data nvarchar(100))\n\nDECLARE @GetAll TABLE\n( Value nvarchar(100),\n InstanceNames nvarchar(100),\n InstanceIds nvarchar(100),\n EditionNames nvarchar(100),\n VersionNames nvarchar(100),\n ClusterNames nvarchar(100),\n Ports nvarchar(100),\n DynamicPorts nvarchar(100),\n Data nvarchar(100))\n\nInsert into @GetInstances\nEXECUTE xp_regread\n  @rootkey = 'HKEY_LOCAL_MACHINE',\n  @key = 'SOFTWARE\\Microsoft\\Microsoft SQL Server',\n  @value_name = 'InstalledInstances'\n\nDECLARE @InstanceName NVARCHAR(100);\n\n-- Cursor to iterate through the instance names\nDECLARE instance_cursor CURSOR FOR\nSELECT InstanceNames FROM @GetInstances;\n\nOPEN instance_cursor;\n\n-- Loop through all instances\nFETCH NEXT FROM instance_cursor INTO @InstanceName;\n\nWHILE @@FETCH_STATUS = 0\nBEGIN\n    DECLARE @InstanceId NVARCHAR(100);\n    DECLARE @main_key NVARCHAR(200) = 'SOFTWARE\\Microsoft\\Microsoft SQL Server\\Instance Names\\SQL';\n    EXECUTE xp_regread\n        @rootkey = 'HKEY_LOCAL_MACHINE',\n        @key = @main_key,\n        @value_name = @InstanceName,\n        @value = @InstanceId OUTPUT;\n\n    -- You'll need to construct the key path using the instance name\n    DECLARE @setup_key NVARCHAR(200) = 'SOFTWARE\\Microsoft\\Microsoft SQL Server\\' + @InstanceId + '\\Setup';\n    DECLARE @cluster_key NVARCHAR(200) = 'SOFTWARE\\Microsoft\\Microsoft SQL Server\\' + @InstanceId + '\\Cluster';\n    DECLARE @port_key NVARCHAR(200) = 'SOFTWARE\\Microsoft\\Microsoft SQL Server\\' + @InstanceId + '\\MSSQLServer\\SuperSocketNetLib\\TCP\\IPAll';\n\n    DECLARE @Edition NVARCHAR(100);\n    EXECUTE xp_regread\n        @rootkey = 'HKEY_LOCAL_MACHINE',\n        @key = @setup_key,\n        @value_name = 'Edition',\n        @value = @Edition OUTPUT;\n\n    DECLARE @Version NVARCHAR(100);\n    EXECUTE xp_regread\n        @rootkey = 'HKEY_LOCAL_MACHINE',\n        @key = @setup_key,\n        @value_name = 'Version',\n        @value = @Version OUTPUT;\n\n    DECLARE @ClusterName NVARCHAR(100);\n    EXECUTE xp_regread\n        @rootkey = 'HKEY_LOCAL_MACHINE',\n        @key = @cluster_key,\n        @value_name = 'ClusterName',\n        @value = @ClusterName OUTPUT;\n\n    DECLARE @Port NVARCHAR(100);\n    EXECUTE xp_regread\n        @rootkey = 'HKEY_LOCAL_MACHINE',\n        @key = @port_key,\n        @value_name = 'tcpPort',\n        @value = @Port OUTPUT;\n\n    DECLARE @DynamicPort NVARCHAR(100);\n    EXECUTE xp_regread\n        @rootkey = 'HKEY_LOCAL_MACHINE',\n        @key = @port_key,\n        @value_name = 'TcpDynamicPorts',\n        @value = @DynamicPort OUTPUT;\n    \n    insert into @GetAll(InstanceNames, InstanceIds, EditionNames, VersionNames, ClusterNames, Ports, DynamicPorts) Values( @InstanceName, @InstanceId, @Edition, @Version, @ClusterName, @Port, @DynamicPort )\n    \n    -- Get the next instance\n    FETCH NEXT FROM instance_cursor INTO @InstanceName;\nEND\n\nCLOSE instance_cursor;\nDEALLOCATE instance_cursor;\n\nSELECT InstanceNames, InstanceIds, EditionNames, VersionNames, ClusterNames,Ports, DynamicPorts FROM @GetAll;");
    reveal_strlit("SELECT CONVERT(varchar, GETUTCDATE(), 20) as utc_date");
    reveal_strlit("SELECT counter_name, object_name, instance_name, cntr_value FROM sys.dm_os_performance_counters WHERE object_name NOT LIKE '%Deprecated%'");
    reveal_strlit("SELECT cast(session_id as varchar) as session_id, cast(wait_duration_ms as bigint) as wait_duration_ms, wait_type, cast(blocking_session_id as varchar) as blocking_session_id FROM sys.dm_os_waiting_tasks");
    reveal_strlit(" WHERE blocking_session_id <> 0 ");
    reveal_strlit("SELECT name FROM sys.databases");
    reveal_strlit("EXEC sp_spaceused");
    reveal_strlit("DECLARE @HADRStatus sql_variant; DECLARE @SQLCommand nvarchar(max);\nSET @HADRStatus = (SELECT SERVERPROPERTY ('IsHadrEnabled'));\nIF (@HADRStatus IS NULL or @HADRStatus <> 1)\nBEGIN\n    SET @SQLCommand = 'SELECT CONVERT(VARCHAR, DATEADD(s, DATEDIFF(s, ''19700101'', MAX(backup_finish_date)), ''19700101''), 120) AS last_backup_date,\n    type, machine_name, ''True'' as is_primary_replica, ''1'' as is_local, '''' as replica_id,database_name FROM msdb.dbo.backupset\n    WHERE UPPER(machine_name) = UPPER(CAST(SERVERPROPERTY(''Machinename'') AS VARCHAR))\n    GROUP BY type, machine_name,database_name '\nEND\nELSE\nBEGIN\n    SET @SQLCommand = 'SELECT CONVERT(VARCHAR, DATEADD(s, DATEDIFF(s, ''19700101'', MAX(b.backup_finish_date)), ''19700101''), 120) AS last_backup_date,\n    b.type, b.machine_name, isnull(rep.is_primary_replica,0) as is_primary_replica, rep.is_local, isnull(convert(varchar(40), rep.replica_id), '''') AS replica_id,database_name \n    FROM msdb.dbo.backupset b\n    LEFT OUTER JOIN sys.databases db ON b.database_name = db.name\n    LEFT OUTER JOIN sys.dm_hadr_database_replica_states rep ON db.database_id = rep.database_id\n    WHERE (rep.is_local is null or rep.is_local = 1)\n    AND (rep.is_primary_replica is null or rep.is_primary_replica = ''True'') and UPPER(machine_name) = UPPER(CAST(SERVERPROPERTY(''Machinename'') AS VARCHAR))\n    GROUP BY type, rep.replica_id, rep.is_primary_replica, rep.is_local, b.database_name, b.machine_name, rep.synchronization_state, rep.synchronization_health'\nEND\nEXEC (@SQLCommand)\n");
    reveal_strlit("SELECT name, physical_name,cast(max_size/128 as bigint) as MaxSize,cast(size/128 as bigint) as AllocatedSize,cast(FILEPROPERTY (name, 'spaceused')/128 as bigint) as UsedSize,case when max_size = '-1' then '1' else '0' end as Unlimited FROM sys.database_files WHERE type_desc = 'LOG'");
    reveal_strlit("SELECT name, physical_name,cast(max_size/128 as bigint) as MaxSize,cast(size/128 as bigint) as AllocatedSize,cast(FILEPROPERTY (name, 'spaceused')/128 as bigint) as UsedSize,case when max_size = '-1' then '1' else '0' end as Unlimited FROM sys.database_files WHERE type_desc = 'ROWS'");
    reveal_strlit("SELECT name, cast(DATABASEPROPERTYEX(name, 'Status') as varchar) AS Status, cast(DATABASEPROPERTYEX(name, 'Recovery') as varchar) AS Recovery, cast(DATABASEPROPERTYEX(name, 'IsAutoClose') as bigint) AS auto_close, cast(DATABASEPROPERTYEX(name, 'IsAutoShrink') as bigint) AS auto_shrink FROM master.dbo.sysdatabases");
    reveal_strlit("SELECT cast( SERVERPROPERTY('IsClustered') as varchar) AS is_clustered");
    reveal_strlit("SELECT nodename FROM sys.dm_os_cluster_nodes");
    reveal_strlit("SELECT cast(SERVERPROPERTY('ComputerNamePhysicalNetBIOS') as varchar) AS active_node");
    reveal_strlit("SELECT name AS DbName, cast((SELECT COUNT(dbid) AS Num_Of_Connections FROM sys.sysprocesses WHERE dbid > 0 AND name = DB_NAME(dbid) GROUP BY dbid ) as bigint) AS NumberOfConnections  FROM sys.databases");
    reveal_strlit("SELECT sj.job_id AS job_id, sj.name AS job_name, sj.enabled AS job_enabled, CAST(sjs.next_run_date AS VARCHAR(8)) AS next_run_date, CAST(sjs.next_run_time AS VARCHAR(6)) AS next_run_time, sjserver.last_run_outcome, sjserver.last_outcome_message, CAST(sjserver.last_run_date AS VARCHAR(8)) AS last_run_date, CAST(sjserver.last_run_time AS VARCHAR(6)) AS last_run_time, sjserver.last_run_duration, ss.enabled AS schedule_enabled, CONVERT(VARCHAR, CURRENT_TIMESTAMP, 20) AS server_current_time FROM dbo.sysjobs sj LEFT JOIN dbo.sysjobschedules sjs ON sj.job_id = sjs.job_id LEFT JOIN dbo.sysjobservers sjserver ON sj.job_id = sjserver.job_id LEFT JOIN dbo.sysschedules ss ON sjs.schedule_id = ss.schedule_id ORDER BY sj.name, sjs.next_run_date ASC, sjs.next_run_time ASC ");
    reveal_strlit("SELECT @@SERVERNAME as server_name, DB_NAME(database_id) AS [database_name], mirroring_state, mirroring_state_desc, mirroring_role, mirroring_role_desc, mirroring_safety_level, mirroring_safety_level_desc, mirroring_partner_name, mirroring_partner_instance, mirroring_witness_name, mirroring_witness_state, mirroring_witness_state_desc FROM sys.database_mirroring WHERE mirroring_state IS NOT NULL");
    reveal_strlit("SELECT GroupsName.name, Groups.primary_replica, Groups.synchronization_health, Groups.synchronization_health_desc, Groups.primary_recovery_health_desc FROM sys.dm_hadr_availability_group_states Groups INNER JOIN master.sys.availability_groups GroupsName ON Groups.group_id = GroupsName.group_id");
    reveal_strlit("SELEC name FROM sys.databases");
}

/// The statements joined into the derived batches contain no occurrence of
/// the batch separator themselves.
pub proof fn lemma_batch_sources_separator_free()
    ensures
        !UTC_ENTRY@.contains(';'),
        !COUNTERS_ENTRIES@.contains(';'),
        !CLUSTER_NODES@.contains(';'),
        !CLUSTER_ACTIVE_NODES@.contains(';'),
{
    reveal_strlit("SELECT CONVERT(varchar, GETUTCDATE(), 20) as utc_date");
    reveal_strlit("SELECT counter_name, object_name, instance_name, cntr_value FROM sys.dm_os_performance_counters WHERE object_name NOT LIKE '%Deprecated%'");
    reveal_strlit("SELECT nodename FROM sys.dm_os_cluster_nodes");
    reveal_strlit("SELECT cast(SERVERPROPERTY('ComputerNamePhysicalNetBIOS') as varchar) AS active_node");
    assert(forall|i: int| 0 <= i < UTC_ENTRY@.len() ==> UTC_ENTRY@[i] != ';');
    assert(forall|i: int| 0 <= i < COUNTERS_ENTRIES@.len() ==> COUNTERS_ENTRIES@[i] != ';');
    assert(forall|i: int| 0 <= i < CLUSTER_NODES@.len() ==> CLUSTER_NODES@[i] != ';');
    assert(forall|i: int| 0 <= i < CLUSTER_ACTIVE_NODES@.len() ==> CLUSTER_ACTIVE_NODES@[i] != ';');
}

/// The native hive prefix does occur in the registry enumeration base, so
/// the hive-path derivation really has something to replace. This discharges
/// at verification time the construction-time failure the derivation rule
/// reserves for a prefix missing from its base.
pub proof fn lemma_native_prefix_in_registry_base()
    ensures
        exists|k: int|
            0 <= k && k + NATIVE_HIVE_PREFIX@.len() as int <= WINDOWS_REGISTRY_INSTANCES_BASE@.len()
                && #[trigger] WINDOWS_REGISTRY_INSTANCES_BASE@.subrange(
                k,
                k + NATIVE_HIVE_PREFIX@.len() as int,
            ) == NATIVE_HIVE_PREFIX@,
{
    reveal_strlit("\nDECLARE @GetInstances TABLE\n( Value nvarchar(100),\n InstanceNames nvarchar(100),\n Data nvarchar(100))\n\nDECLARE @GetAll TABLE\n( Value nvarchar(100),\n InstanceNames nvarchar(100),\n InstanceIds nvarchar(100),\n EditionNames nvarchar(100),\n VersionNames nvarchar(100),\n ClusterNames nvarchar(100),\n Ports nvarchar(100),\n DynamicPorts nvarchar(100),\n Data nvarchar(100))\n\nInsert into @GetInstances\nEXECUTE xp_regread\n  @rootkey = 'HKEY_LOCAL_MACHINE',\n  @key = 'SOFTWARE\\Microsoft\\Microsoft SQL Server',\n  @value_name = 'InstalledInstances'\n\nDECLARE @InstanceName NVARCHAR(100);\n\n-- Cursor to iterate through the instance names\nDECLARE instance_cursor CURSOR FOR\nSELECT InstanceNames FROM @GetInstances;\n\nOPEN instance_cursor;\n\n-- Loop through all instances\nFETCH NEXT FROM instance_cursor INTO @InstanceName;\n\nWHILE @@FETCH_STATUS = 0\nBEGIN\n    DECLARE @InstanceId NVARCHAR(100);\n    DECLARE @main_key NVARCHAR(200) = 'SOFTWARE\\Microsoft\\Microsoft SQL Server\\Instance Names\\SQL';\n    EXECUTE xp_regread\n        @rootkey = 'HKEY_LOCAL_MACHINE',\n        @key = @main_key,\n        @value_name = @InstanceName,\n        @value = @InstanceId OUTPUT;\n\n    -- You'll need to construct the key path using the instance name\n    DECLARE @setup_key NVARCHAR(200) = 'SOFTWARE\\Microsoft\\Microsoft SQL Server\\' + @InstanceId + '\\Setup';\n    DECLARE @cluster_key NVARCHAR(200) = 'SOFTWARE\\Microsoft\\Microsoft SQL Server\\' + @InstanceId + '\\Cluster';\n    DECLARE @port_key NVARCHAR(200) = 'SOFTWARE\\Microsoft\\Microsoft SQL Server\\' + @InstanceId + '\\MSSQLServer\\SuperSocketNetLib\\TCP\\IPAll';\n\n    DECLARE @Edition NVARCHAR(100);\n    EXECUTE xp_regread\n        @rootkey = 'HKEY_LOCAL_MACHINE',\n        @key = @setup_key,\n        @value_name = 'Edition',\n        @value = @Edition OUTPUT;\n\n    DECLARE @Version NVARCHAR(100);\n    EXECUTE xp_regread\n        @rootkey = 'HKEY_LOCAL_MACHINE',\n        @key = @setup_key,\n        @value_name = 'Version',\n        @value = @Version OUTPUT;\n\n    DECLARE @ClusterName NVARCHAR(100);\n    EXECUTE xp_regread\n        @rootkey = 'HKEY_LOCAL_MACHINE',\n        @key = @cluster_key,\n        @value_name = 'ClusterName',\n        @value = @ClusterName OUTPUT;\n\n    DECLARE @Port NVARCHAR(100);\n    EXECUTE xp_regread\n        @rootkey = 'HKEY_LOCAL_MACHINE',\n        @key = @port_key,\n        @value_name = 'tcpPort',\n        @value = @Port OUTPUT;\n\n    DECLARE @DynamicPort NVARCHAR(100);\n    EXECUTE xp_regread\n        @rootkey = 'HKEY_LOCAL_MACHINE',\n        @key = @port_key,\n        @value_name = 'TcpDynamicPorts',\n        @value = @DynamicPort OUTPUT;\n    \n    insert into @GetAll(InstanceNames, InstanceIds, EditionNames, VersionNames, ClusterNames, Ports, DynamicPorts) Values( @InstanceName, @InstanceId, @Edition, @Version, @ClusterName, @Port, @DynamicPort )\n    \n    -- Get the next instance\n    FETCH NEXT FROM instance_cursor INTO @InstanceName;\nEND\n\nCLOSE instance_cursor;\nDEALLOCATE instance_cursor;\n\nSELECT InstanceNames, InstanceIds, EditionNames, VersionNames, ClusterNames,Ports, DynamicPorts FROM @GetAll;");
    reveal_strlit("SOFTWARE\\Microsoft\\");
    assert(WINDOWS_REGISTRY_INSTANCES_BASE@.subrange(457, 457 + NATIVE_HIVE_PREFIX@.len() as int)
        =~= NATIVE_HIVE_PREFIX@);
}

} // verus!
