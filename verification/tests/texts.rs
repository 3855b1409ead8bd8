use workspace_db::sql;

/// The words of a statement with one space between them.
fn words(statement: &str) -> String {
    statement.split_whitespace().collect::<Vec<&str>>().join(" ")
}

#[test]
fn text_of_delete_from_workspace() {
    assert_eq!(
        words(sql::DELETE_FROM_WORKSPACE),
        "DELETE FROM public.af_workspace where workspace_id = $1"
    );
}

#[test]
fn text_of_insert_user_workspace() {
    assert_eq!(
        words(sql::INSERT_USER_WORKSPACE),
        "INSERT INTO public.af_workspace (owner_uid, workspace_name) VALUES ((SELECT \
         uid FROM public.af_user WHERE uuid = $1), $2) RETURNING workspace_id, \
         database_storage_id, owner_uid, (SELECT name FROM public.af_user WHERE uid = \
         owner_uid) AS owner_name, created_at, workspace_type, deleted_at, \
         workspace_name, icon ;"
    );
}

#[test]
fn text_of_rename_workspace() {
    assert_eq!(
        words(sql::RENAME_WORKSPACE),
        "UPDATE public.af_workspace SET workspace_name = $1 WHERE workspace_id = $2"
    );
}

#[test]
fn text_of_change_workspace_icon() {
    assert_eq!(
        words(sql::CHANGE_WORKSPACE_ICON),
        "UPDATE public.af_workspace SET icon = $1 WHERE workspace_id = $2"
    );
}

#[test]
fn text_of_select_user_is_workspace_owner() {
    assert_eq!(
        words(sql::SELECT_USER_IS_WORKSPACE_OWNER),
        "SELECT EXISTS( SELECT 1 FROM public.af_workspace_member JOIN af_roles ON \
         af_workspace_member.role_id = af_roles.id WHERE workspace_id = $1 AND \
         af_workspace_member.uid = ( SELECT uid FROM public.af_user WHERE uuid = $2 ) \
         AND af_roles.name = 'Owner' ) AS \"exists\";"
    );
}

#[test]
fn text_of_select_user_is_collab_publisher_for_all_views() {
    assert_eq!(
        words(sql::SELECT_USER_IS_COLLAB_PUBLISHER_FOR_ALL_VIEWS),
        "SELECT COUNT(*) FROM af_published_collab WHERE workspace_id = $1 AND view_id = \
         ANY($2) AND published_by = (SELECT uid FROM af_user WHERE uuid = $3)"
    );
}

#[test]
fn text_of_select_user_role() {
    assert_eq!(
        words(sql::SELECT_USER_ROLE),
        "SELECT role_id FROM af_workspace_member WHERE workspace_id = $1 AND uid = $2"
    );
}

#[test]
fn text_of_select_user_can_edit_collab() {
    assert_eq!(
        words(sql::SELECT_USER_CAN_EDIT_COLLAB),
        "WITH workspace_check AS ( SELECT EXISTS( SELECT 1 FROM af_workspace_member \
         WHERE af_workspace_member.uid = (SELECT uid FROM af_user WHERE uuid = $1) AND \
         af_workspace_member.workspace_id = $3 ) AS \"workspace_exists\" ), \
         collab_check AS ( SELECT EXISTS( SELECT 1 FROM af_collab_member WHERE oid = $2 \
         ) AS \"collab_exists\" ) SELECT NOT collab_check.collab_exists OR ( \
         workspace_check.workspace_exists AND EXISTS( SELECT 1 FROM af_collab_member \
         JOIN af_permissions ON af_collab_member.permission_id = af_permissions.id \
         WHERE af_collab_member.uid = (SELECT uid FROM af_user WHERE uuid = $1) AND \
         af_collab_member.oid = $2 AND af_permissions.access_level > 20 ) ) AS \
         \"permission_check\" FROM workspace_check, collab_check;"
    );
}

#[test]
fn text_of_upsert_workspace_member_with_txn() {
    assert_eq!(
        words(sql::UPSERT_WORKSPACE_MEMBER_WITH_TXN),
        "INSERT INTO public.af_workspace_member (workspace_id, uid, role_id) SELECT $1, \
         af_user.uid, $3 FROM public.af_user WHERE af_user.email = $2 ON CONFLICT \
         (workspace_id, uid) DO NOTHING;"
    );
}

#[test]
fn text_of_insert_workspace_invitation() {
    assert_eq!(
        words(sql::INSERT_WORKSPACE_INVITATION),
        "INSERT INTO public.af_workspace_invitation ( id, workspace_id, inviter, \
         invitee_email, role_id ) VALUES ( $1, $2, (SELECT uid FROM public.af_user \
         WHERE uuid = $3), $4, $5 )"
    );
}

#[test]
fn text_of_update_workspace_invitation_set_status_accepted() {
    assert_eq!(
        words(sql::UPDATE_WORKSPACE_INVITATION_SET_STATUS_ACCEPTED),
        "UPDATE public.af_workspace_invitation SET status = 1 WHERE invitee_email = \
         (SELECT email FROM public.af_user WHERE uuid = $1) AND id = $2 AND status = 0"
    );
}

#[test]
fn text_of_get_invitation_by_id() {
    assert_eq!(
        words(sql::GET_INVITATION_BY_ID),
        "SELECT workspace_id, inviter AS inviter_uid, (SELECT uid FROM public.af_user \
         WHERE email = invitee_email) AS invitee_uid, status, role_id AS role FROM \
         public.af_workspace_invitation WHERE id = $1"
    );
}

#[test]
fn text_of_select_workspace_invitations_for_user() {
    assert_eq!(
        words(sql::SELECT_WORKSPACE_INVITATIONS_FOR_USER),
        "SELECT id AS invite_id, workspace_id, (SELECT workspace_name FROM \
         public.af_workspace WHERE workspace_id = \
         af_workspace_invitation.workspace_id), (SELECT email FROM public.af_user WHERE \
         uid = af_workspace_invitation.inviter) AS inviter_email, (SELECT name FROM \
         public.af_user WHERE uid = af_workspace_invitation.inviter) AS inviter_name, \
         status, updated_at FROM public.af_workspace_invitation WHERE \
         af_workspace_invitation.invitee_email = (SELECT email FROM public.af_user \
         WHERE uuid = $1) AND ($2::SMALLINT IS NULL OR status = $2)"
    );
}

#[test]
fn text_of_upsert_workspace_member() {
    assert_eq!(
        words(sql::UPSERT_WORKSPACE_MEMBER),
        "UPDATE af_workspace_member SET role_id = $1 WHERE workspace_id = $2 AND uid = \
         ( SELECT uid FROM af_user WHERE email = $3 )"
    );
}

#[test]
fn text_of_select_is_workspace_owner_by_email() {
    assert_eq!(
        words(sql::SELECT_IS_WORKSPACE_OWNER_BY_EMAIL),
        "SELECT EXISTS ( SELECT 1 FROM public.af_workspace WHERE workspace_id = $1 AND \
         owner_uid = ( SELECT uid FROM public.af_user WHERE email = $2 ) ) AS \
         \"is_owner\";"
    );
}

#[test]
fn text_of_delete_workspace_members() {
    assert_eq!(
        words(sql::DELETE_WORKSPACE_MEMBERS),
        "DELETE FROM public.af_workspace_member WHERE workspace_id = $1 AND uid = ( \
         SELECT uid FROM public.af_user WHERE email = $2 ) AND uid <> ( SELECT \
         owner_uid FROM public.af_workspace WHERE workspace_id = $1 );"
    );
}

#[test]
fn text_of_select_workspace_member_perm_stream() {
    assert_eq!(
        words(sql::SELECT_WORKSPACE_MEMBER_PERM_STREAM),
        "SELECT uid, role_id as role, workspace_id FROM af_workspace_member"
    );
}

#[test]
fn text_of_select_workspace_member_list() {
    assert_eq!(
        words(sql::SELECT_WORKSPACE_MEMBER_LIST),
        "SELECT af_user.uid, af_user.name, af_user.email, af_workspace_member.role_id \
         AS role FROM public.af_workspace_member JOIN public.af_user ON \
         af_workspace_member.uid = af_user.uid WHERE af_workspace_member.workspace_id = \
         $1 ORDER BY af_workspace_member.created_at ASC;"
    );
}

#[test]
fn text_of_select_workspace_member() {
    assert_eq!(
        words(sql::SELECT_WORKSPACE_MEMBER),
        "SELECT af_user.uid, af_user.name, af_user.email, af_workspace_member.role_id \
         AS role FROM public.af_workspace_member JOIN public.af_user ON \
         af_workspace_member.uid = af_user.uid WHERE af_workspace_member.workspace_id = \
         $1 AND af_workspace_member.uid = $2"
    );
}

#[test]
fn text_of_select_user_profile() {
    assert_eq!(
        words(sql::SELECT_USER_PROFILE),
        "SELECT * FROM public.af_user_profile_view WHERE uuid = $1"
    );
}

#[test]
fn text_of_select_workspace() {
    assert_eq!(
        words(sql::SELECT_WORKSPACE),
        "SELECT workspace_id, database_storage_id, owner_uid, (SELECT name FROM \
         public.af_user WHERE uid = owner_uid) AS owner_name, created_at, \
         workspace_type, deleted_at, workspace_name, icon FROM public.af_workspace \
         WHERE workspace_id = $1"
    );
}

#[test]
fn text_of_update_updated_at_of_workspace() {
    assert_eq!(
        words(sql::UPDATE_UPDATED_AT_OF_WORKSPACE),
        "UPDATE af_workspace_member SET updated_at = CURRENT_TIMESTAMP WHERE uid = \
         (SELECT uid FROM public.af_user WHERE uuid = $1) AND workspace_id = $2;"
    );
}

#[test]
fn text_of_select_all_user_workspaces() {
    assert_eq!(
        words(sql::SELECT_ALL_USER_WORKSPACES),
        "SELECT w.workspace_id, w.database_storage_id, w.owner_uid, (SELECT name FROM \
         public.af_user WHERE uid = w.owner_uid) AS owner_name, w.created_at, \
         w.workspace_type, w.deleted_at, w.workspace_name, w.icon FROM af_workspace w \
         JOIN af_workspace_member wm ON w.workspace_id = wm.workspace_id WHERE wm.uid = \
         ( SELECT uid FROM public.af_user WHERE uuid = $1 );"
    );
}

#[test]
fn text_of_select_permission() {
    assert_eq!(
        words(sql::SELECT_PERMISSION),
        "SELECT * FROM public.af_permissions WHERE id = $1"
    );
}

#[test]
fn text_of_select_permission_from_role_id() {
    assert_eq!(
        words(sql::SELECT_PERMISSION_FROM_ROLE_ID),
        "SELECT p.id, p.name, p.access_level, p.description FROM af_permissions p JOIN \
         af_role_permissions rp ON p.id = rp.permission_id WHERE rp.role_id = $1"
    );
}

#[test]
fn text_of_select_workspace_total_collab_bytes() {
    assert_eq!(
        words(sql::SELECT_WORKSPACE_TOTAL_COLLAB_BYTES),
        "SELECT SUM(len) FROM af_collab WHERE workspace_id = $1"
    );
}

#[test]
fn text_of_select_workspace_name_from_workspace_id() {
    assert_eq!(
        words(sql::SELECT_WORKSPACE_NAME_FROM_WORKSPACE_ID),
        "SELECT workspace_name FROM public.af_workspace WHERE workspace_id = $1"
    );
}

#[test]
fn text_of_select_workspace_member_count_from_workspace_id() {
    assert_eq!(
        words(sql::SELECT_WORKSPACE_MEMBER_COUNT_FROM_WORKSPACE_ID),
        "SELECT COUNT(*) FROM public.af_workspace_member WHERE workspace_id = $1"
    );
}

#[test]
fn text_of_select_workspace_pending_invitations() {
    assert_eq!(
        words(sql::SELECT_WORKSPACE_PENDING_INVITATIONS),
        "SELECT id, invitee_email FROM public.af_workspace_invitation WHERE \
         workspace_id = $1 AND status = 0"
    );
}

#[test]
fn text_of_is_workspace_exist() {
    assert_eq!(
        words(sql::IS_WORKSPACE_EXIST),
        "SELECT EXISTS( SELECT 1 FROM af_workspace WHERE workspace_id = $1 ) AS \
         user_exists;"
    );
}

#[test]
fn text_of_select_workspace_settings() {
    assert_eq!(
        words(sql::SELECT_WORKSPACE_SETTINGS),
        "SElECT settings FROM af_workspace WHERE workspace_id = $1"
    );
}

#[test]
fn text_of_upsert_workspace_settings() {
    assert_eq!(
        words(sql::UPSERT_WORKSPACE_SETTINGS),
        "UPDATE af_workspace SET settings = $1 WHERE workspace_id = $2"
    );
}

#[test]
fn text_of_select_workspace_publish_namespace_exists() {
    assert_eq!(
        words(sql::SELECT_WORKSPACE_PUBLISH_NAMESPACE_EXISTS),
        "SELECT EXISTS( SELECT 1 FROM af_workspace WHERE workspace_id = $1 AND \
         publish_namespace = $2 )"
    );
}

#[test]
fn text_of_update_workspace_publish_namespace() {
    assert_eq!(
        words(sql::UPDATE_WORKSPACE_PUBLISH_NAMESPACE),
        "UPDATE af_workspace SET publish_namespace = $1 WHERE workspace_id = $2"
    );
}

#[test]
fn text_of_select_workspace_publish_namespace() {
    assert_eq!(
        words(sql::SELECT_WORKSPACE_PUBLISH_NAMESPACE),
        "SELECT publish_namespace FROM af_workspace WHERE workspace_id = $1"
    );
}

#[test]
fn text_of_insert_or_replace_publish_collab_metas() {
    assert_eq!(
        words(sql::INSERT_OR_REPLACE_PUBLISH_COLLAB_METAS),
        "INSERT INTO af_published_collab (workspace_id, view_id, publish_name, \
         published_by, metadata, blob) SELECT * FROM UNNEST( (SELECT array_agg((SELECT \
         $1::uuid)) FROM generate_series(1, $7))::uuid[], $2::uuid[], $3::text[], \
         (SELECT array_agg((SELECT uid FROM af_user WHERE uuid = $4)) FROM \
         generate_series(1, $7))::bigint[], $5::jsonb[], $6::bytea[] ) ON CONFLICT \
         (workspace_id, view_id) DO UPDATE SET metadata = EXCLUDED.metadata"
    );
}

#[test]
fn text_of_select_publish_collab_meta() {
    assert_eq!(
        words(sql::SELECT_PUBLISH_COLLAB_META),
        "SELECT metadata FROM af_published_collab WHERE workspace_id = (SELECT \
         workspace_id FROM af_workspace WHERE publish_namespace = $1) AND publish_name \
         = $2"
    );
}

#[test]
fn text_of_delete_published_collabs() {
    assert_eq!(
        words(sql::DELETE_PUBLISHED_COLLABS),
        "DELETE FROM af_published_collab WHERE workspace_id = $1 AND view_id = ANY($2)"
    );
}

#[test]
fn text_of_select_published_collab_blob() {
    assert_eq!(
        words(sql::SELECT_PUBLISHED_COLLAB_BLOB),
        "SELECT blob FROM af_published_collab WHERE workspace_id = (SELECT workspace_id \
         FROM af_workspace WHERE publish_namespace = $1) AND publish_name = $2"
    );
}

#[test]
fn text_of_select_published_collab_info() {
    assert_eq!(
        words(sql::SELECT_PUBLISHED_COLLAB_INFO),
        "SELECT (SELECT publish_namespace FROM af_workspace aw WHERE aw.workspace_id = \
         apc.workspace_id) AS namespace, publish_name, view_id FROM af_published_collab \
         apc WHERE view_id = $1"
    );
}
